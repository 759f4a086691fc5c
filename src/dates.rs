//! Instants on a fixed-offset clock and the splitting of a date range into
//! batches no wider than the upstream API accepts.
use vstd::prelude::*;

verus! {

/// Seconds in one day.
pub const SECS_PER_DAY: i64 = 86400;

/// Earliest instant the library handles (about 29 700 BCE).
pub const MIN_INSTANT: i64 = -1_000_000_000_000;

/// Latest instant the library handles (about 33 600 CE).
pub const MAX_INSTANT: i64 = 1_000_000_000_000;

/// Largest magnitude of a UTC offset, in seconds.
pub const MAX_OFFSET: i32 = 86399;

/// The widest window, in days, that the readings endpoint accepts.
pub const DEFAULT_SPAN_DAYS: u32 = 10;

/// How many days back the default range starts.
pub const DEFAULT_LOOKBACK_DAYS: i64 = 10;

/// An instant in seconds since the Unix epoch (UTC), seen on a clock whose
/// offset east of UTC is `offset` seconds.
#[derive(Clone, Copy, Debug, PartialEq, Eq, Structural)]
pub struct LocalTime {
    pub instant: i64,
    pub offset: i32,
}

impl LocalTime {
    /// The instant and the offset lie in the supported ranges.
    pub open spec fn wf(self) -> bool {
        &&& MIN_INSTANT <= self.instant <= MAX_INSTANT
        &&& -MAX_OFFSET <= self.offset <= MAX_OFFSET
    }

    /// Seconds since the epoch as the wall clock at `offset` reads them.
    pub open spec fn wall_secs(self) -> int {
        self.instant + self.offset
    }
}

/// The earlier of two instants; the second one on a tie.
pub open spec fn earlier_of(a: LocalTime, b: LocalTime) -> LocalTime {
    if a.instant < b.instant {
        a
    } else {
        b
    }
}

/// The batches of `[cursor, end)`: windows of `span` seconds starting at
/// `cursor`, the last one cut at `end`.
pub open spec fn batches_from(cursor: LocalTime, end: LocalTime, span: int) -> Seq<
    (LocalTime, LocalTime),
>
    decreases end.instant - cursor.instant,
    when span > 0
{
    if cursor.instant + span < end.instant {
        let next = LocalTime { instant: (cursor.instant + span) as i64, offset: cursor.offset };
        seq![(cursor, next)] + batches_from(next, end, span)
    } else {
        seq![(cursor, end)]
    }
}

/// Returns the earlier of `d1` and `d2` (`d2` when they are the same instant).
pub fn min_dates(d1: LocalTime, d2: LocalTime) -> (r: LocalTime)
    ensures
        r == earlier_of(d1, d2),
{
    if d1.instant < d2.instant {
        d1
    } else {
        d2
    }
}

/// Why a date range could not be split.
#[derive(Clone, Copy, Debug, PartialEq, Eq, Structural)]
pub enum BatchError {
    /// The range is empty or reversed, or the span is zero days.
    InvalidRange,
}

/// Splits `[start, end)` into consecutive windows of at most `max_span_days`
/// days, measured in absolute seconds.
pub fn batch(start: LocalTime, end: LocalTime, max_span_days: u32) -> (r: Result<
    Vec<(LocalTime, LocalTime)>,
    BatchError,
>)
    requires
        start.wf(),
        end.wf(),
    ensures
        match r {
            Ok(v) => {
                &&& start.instant < end.instant
                &&& max_span_days > 0
                &&& v@ == batches_from(start, end, max_span_days * SECS_PER_DAY)
            },
            Err(e) => {
                &&& e == BatchError::InvalidRange
                &&& (start.instant >= end.instant || max_span_days == 0)
            },
        },
{
    if start.instant >= end.instant || max_span_days == 0 {
        return Err(BatchError::InvalidRange);
    }
    let span: i64 = max_span_days as i64 * SECS_PER_DAY;
    let mut batches: Vec<(LocalTime, LocalTime)> = Vec::new();
    let mut cursor = start;
    loop
        invariant
            span == max_span_days * SECS_PER_DAY,
            span > 0,
            span <= u32::MAX * SECS_PER_DAY,
            start.instant <= cursor.instant < end.instant,
            end.wf(),
            batches@ + batches_from(cursor, end, span as int) == batches_from(
                start,
                end,
                span as int,
            ),
        decreases end.instant - cursor.instant,
    {
        let next = LocalTime { instant: cursor.instant + span, offset: cursor.offset };
        let stop = min_dates(next, end);
        batches.push((cursor, stop));
        if next.instant < end.instant {
            proof {
                assert(batches_from(cursor, end, span as int) == seq![(cursor, next)]
                    + batches_from(next, end, span as int));
                assert(batches@ + batches_from(next, end, span as int) =~= batches_from(
                    start,
                    end,
                    span as int,
                ));
            }
            cursor = next;
        } else {
            proof {
                assert(batches@ =~= batches_from(start, end, span as int));
            }
            return Ok(batches);
        }
    }
}

/// Splits `[start, end)` into batches of the readings endpoint's widest
/// window.
pub fn create_date_batches(start: LocalTime, end: LocalTime) -> (r: Result<
    Vec<(LocalTime, LocalTime)>,
    BatchError,
>)
    requires
        start.wf(),
        end.wf(),
    ensures
        match r {
            Ok(v) => {
                &&& start.instant < end.instant
                &&& v@ == batches_from(start, end, DEFAULT_SPAN_DAYS * SECS_PER_DAY)
            },
            Err(e) => e == BatchError::InvalidRange && start.instant >= end.instant,
        },
{
    batch(start, end, DEFAULT_SPAN_DAYS)
}

/// Batches of a non-empty range with a positive span tile it: the first
/// starts at `start`, the last ends at `end`, each ends where the next
/// starts, each is non-empty and ascending, and none is wider than `span`.
pub proof fn lemma_batches_tile(start: LocalTime, end: LocalTime, span: int)
    requires
        start.instant < end.instant,
        span > 0,
    ensures
        ({
            let b = batches_from(start, end, span);
            &&& b.len() >= 1
            &&& b[0].0 == start
            &&& b[b.len() - 1].1 == end
            &&& forall|i: int| 0 <= i < b.len() - 1 ==> #[trigger] b[i].1 == b[i + 1].0
            &&& forall|i: int|
                0 <= i < b.len() ==> #[trigger] b[i].0.instant < b[i].1.instant
                    && b[i].1.instant - b[i].0.instant <= span
                    && start.instant <= b[i].0.instant && b[i].1.instant <= end.instant
            &&& forall|i: int, j: int|
                0 <= i < j < b.len() ==> #[trigger] b[i].1.instant <= #[trigger] b[j].0.instant
        }),
    decreases end.instant - start.instant,
{
    let b = batches_from(start, end, span);
    if start.instant + span < end.instant {
        let next = LocalTime { instant: (start.instant + span) as i64, offset: start.offset };
        lemma_batches_tile(next, end, span);
        let rest = batches_from(next, end, span);
        assert(b == seq![(start, next)] + rest);
        assert forall|i: int| 0 <= i < b.len() - 1 implies #[trigger] b[i].1 == b[i + 1].0 by {
            if i > 0 {
                assert(b[i] == rest[i - 1]);
                assert(b[i + 1] == rest[i]);
            }
        }
        assert forall|i: int, j: int|
            0 <= i < j < b.len() implies #[trigger] b[i].1.instant <= #[trigger] b[j].0.instant by {
            if i > 0 {
                assert(b[i] == rest[i - 1]);
                assert(b[j] == rest[j - 1]);
            } else {
                assert(b[j] == rest[j - 1]);
                assert(rest[j - 1].0.instant >= next.instant);
            }
        }
        assert forall|i: int| 0 <= i < b.len() implies #[trigger] b[i].0.instant < b[i].1.instant
            && b[i].1.instant - b[i].0.instant <= span && start.instant <= b[i].0.instant
            && b[i].1.instant <= end.instant by {
            if i > 0 {
                assert(b[i] == rest[i - 1]);
            }
        }
    }
}

/// A range no wider than the span makes exactly one batch, the range itself.
pub proof fn lemma_short_range_single_batch(start: LocalTime, end: LocalTime, span: int)
    requires
        start.instant < end.instant,
        span > 0,
        end.instant - start.instant <= span,
    ensures
        batches_from(start, end, span) == seq![(start, end)],
{
}

/// The instant at which the day holding `t` began on `t`'s clock.
pub open spec fn start_of_day(t: LocalTime) -> LocalTime {
    LocalTime { instant: (t.instant - t.wall_secs() % (SECS_PER_DAY as int)) as i64, offset: t.offset }
}

/// The instant `secs` seconds before `t`, on the same clock.
pub open spec fn earlier_by(t: LocalTime, secs: int) -> LocalTime {
    LocalTime { instant: (t.instant - secs) as i64, offset: t.offset }
}

/// The range used when no dates are given: from the start of the day
/// `DEFAULT_LOOKBACK_DAYS` days before `now` up to `now`.
pub open spec fn default_range(now: LocalTime) -> (LocalTime, LocalTime) {
    (start_of_day(earlier_by(now, DEFAULT_LOOKBACK_DAYS * SECS_PER_DAY)), now)
}

/// Returns the start of the day holding `t`, on `t`'s clock.
pub fn day_start(t: LocalTime) -> (r: LocalTime)
    requires
        t.wf(),
    ensures
        r == start_of_day(t),
        r.instant <= t.instant < r.instant + SECS_PER_DAY,
{
    let wall: i64 = t.instant + t.offset as i64;
    let mut rem: i64 = wall % SECS_PER_DAY;
    if rem < 0 {
        rem = rem + SECS_PER_DAY;
    }
    assert(rem == t.wall_secs() % (SECS_PER_DAY as int));
    LocalTime { instant: t.instant - rem, offset: t.offset }
}

/// Why the requested range could not be settled.
#[derive(Clone, Copy, Debug, PartialEq, Eq, Structural)]
pub enum DateRangeError {
    /// One bound was given without the other.
    PartialRange,
}

/// Settles the range to fetch: both bounds as given, or the default range
/// ending at `now` when neither is given.
pub fn get_date_range(start: Option<LocalTime>, end: Option<LocalTime>, now: LocalTime) -> (r:
    Result<(LocalTime, LocalTime), DateRangeError>)
    requires
        now.wf(),
        now.instant >= 0,
    ensures
        match (start, end) {
            (Some(s), Some(e)) => r == Ok::<(LocalTime, LocalTime), DateRangeError>((s, e)),
            (None, None) => {
                &&& r == Ok::<(LocalTime, LocalTime), DateRangeError>(default_range(now))
                &&& default_range(now).0.wf()
            },
            _ => r == Err::<(LocalTime, LocalTime), DateRangeError>(DateRangeError::PartialRange),
        },
{
    match (start, end) {
        (Some(s), Some(e)) => Ok((s, e)),
        (None, None) => {
            let back = LocalTime {
                instant: now.instant - DEFAULT_LOOKBACK_DAYS * SECS_PER_DAY,
                offset: now.offset,
            };
            Ok((day_start(back), now))
        },
        _ => Err(DateRangeError::PartialRange),
    }
}

/// The text that chrono's `%Y-%m-%dT%H:%M:%S` format gives for the UTC
/// instant `secs` seconds after the epoch.
pub uninterp spec fn query_time_text(secs: int) -> Seq<char>;

/// Relies on chrono's `DateTime::from_timestamp` (`None` only outside years
/// -262143 to 262142) and `DateTime::format`, which renders the date and time
/// as `YYYY-MM-DDTHH:MM:SS`.
#[verifier::external_body]
fn format_timestamp(secs: i64) -> (r: Option<String>)
    ensures
        r matches Some(text) ==> text@ == query_time_text(secs as int),
        2 * MIN_INSTANT <= secs <= 2 * MAX_INSTANT ==> r is Some,
{
    match chrono::DateTime::from_timestamp(secs, 0) {
        Some(d) => Some(d.format("%Y-%m-%dT%H:%M:%S").to_string()),
        None => None,
    }
}

/// The wall-clock text of `t` without an offset, as the readings endpoint
/// expects its bounds.
pub open spec fn wall_clock_text(t: LocalTime) -> Seq<char> {
    query_time_text(t.wall_secs())
}

/// Formats `t` as its clock reads it, `YYYY-MM-DDTHH:MM:SS`.
pub fn format_wall_clock(t: LocalTime) -> (r: String)
    requires
        t.wf(),
    ensures
        r@ == wall_clock_text(t),
{
    let wall: i64 = t.instant + t.offset as i64;
    match format_timestamp(wall) {
        Some(text) => text,
        None => {
            assert(false);
            String::new()
        },
    }
}

/// The instant, in Unix seconds, of a date and time with an offset as
/// chrono's `DateTime<FixedOffset>` parser reads `text`; `None` where it
/// refuses it.
pub uninterp spec fn offset_datetime_instant(text: Seq<char>) -> Option<i64>;

/// Relies on chrono's `FromStr for DateTime<FixedOffset>` (the parser behind
/// `DateTime<Local>`'s) to read a date and time with an offset, and on
/// `DateTime::timestamp` for its instant.
#[verifier::external_body]
fn parse_offset_datetime(text: &str) -> (r: Option<i64>)
    ensures
        r == offset_datetime_instant(text@),
{
    match text.parse::<chrono::DateTime<chrono::FixedOffset>>() {
        Ok(d) => Some(d.timestamp()),
        Err(_) => None,
    }
}

/// The Unix seconds of midnight UTC on the calendar date that chrono's
/// `NaiveDate` parser reads from `text`; `None` where it refuses it.
pub uninterp spec fn date_midnight_utc(text: Seq<char>) -> Option<i64>;

/// Relies on chrono's `FromStr for NaiveDate` to read a `YYYY-MM-DD` date,
/// and on `NaiveDate::and_hms_opt` and `NaiveDateTime::and_utc` for the
/// instant of its midnight.
#[verifier::external_body]
fn parse_date(text: &str) -> (r: Option<i64>)
    ensures
        r == date_midnight_utc(text@),
{
    match text.parse::<chrono::NaiveDate>() {
        Ok(d) => match d.and_hms_opt(0, 0, 0) {
            Some(t) => Some(t.and_utc().timestamp()),
            None => None,
        },
        Err(_) => None,
    }
}

/// Why a date given on the command line was refused.
#[derive(Clone, Copy, Debug, PartialEq, Eq, Structural)]
pub enum DateParseError {
    /// The text is neither a date and time with an offset nor a date.
    Unreadable,
    /// The instant lies outside the supported range.
    OutOfRange,
}

/// The instant named by the two readings of a text: the instant of a date
/// and time with an offset when there is one, else the midnight of a bare
/// date on the clock at `offset`.
pub open spec fn resolve_instant(with_offset: Option<i64>, date_midnight: Option<i64>, offset: i32) -> Option<int> {
    match with_offset {
        Some(t) => Some(t as int),
        None => match date_midnight {
            Some(m) => Some(m - offset),
            None => None,
        },
    }
}

/// The instant that `text` names on a clock at `offset`.
pub open spec fn named_instant(text: Seq<char>, offset: i32) -> Option<int> {
    resolve_instant(offset_datetime_instant(text), date_midnight_utc(text), offset)
}

/// The outcome of reading a date bound whose instant is `named`, on the
/// clock at `offset`.
pub open spec fn bound_outcome(named: Option<int>, offset: i32) -> Result<LocalTime, DateParseError> {
    match named {
        None => Err(DateParseError::Unreadable),
        Some(t) => if MIN_INSTANT <= t <= MAX_INSTANT {
            Ok(LocalTime { instant: t as i64, offset })
        } else {
            Err(DateParseError::OutOfRange)
        },
    }
}

/// Settles a date bound from the two readings of its text: `with_offset`,
/// the instant of a date and time with an offset, and `date_midnight`, the
/// UTC midnight of a bare date, used only when the first is absent.
pub fn bound_from_parts(with_offset: Option<i64>, date_midnight: Option<i64>, offset: i32) -> (r:
    Result<LocalTime, DateParseError>)
    requires
        -MAX_OFFSET <= offset <= MAX_OFFSET,
    ensures
        r == bound_outcome(resolve_instant(with_offset, date_midnight, offset), offset),
        r matches Ok(t) ==> t.wf(),
{
    let instant: i64 = match with_offset {
        Some(t) => t,
        None => match date_midnight {
            Some(m) => {
                if m < MIN_INSTANT - MAX_OFFSET as i64 || m > MAX_INSTANT + MAX_OFFSET as i64 {
                    return Err(DateParseError::OutOfRange);
                }
                m - offset as i64
            },
            None => {
                return Err(DateParseError::Unreadable);
            },
        },
    };
    if instant < MIN_INSTANT || instant > MAX_INSTANT {
        return Err(DateParseError::OutOfRange);
    }
    Ok(LocalTime { instant, offset })
}

/// Reads a date bound: a date and time with an offset
/// (`2024-01-02T03:04:05+01:00`), or a bare date (`2024-01-02`) taken as its
/// midnight on the clock at `offset`. The result is seen on that clock.
pub fn parse_dt(value: &str, offset: i32) -> (r: Result<LocalTime, DateParseError>)
    requires
        -MAX_OFFSET <= offset <= MAX_OFFSET,
    ensures
        r == bound_outcome(named_instant(value@, offset), offset),
        r matches Ok(t) ==> t.wf(),
{
    let with_offset = parse_offset_datetime(value);
    let date_midnight = match with_offset {
        Some(_) => None,
        None => parse_date(value),
    };
    bound_from_parts(with_offset, date_midnight, offset)
}

} // verus!
