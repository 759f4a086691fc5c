use glowmarkt::dates::{
    batch, bound_from_parts, create_date_batches, day_start, format_wall_clock, get_date_range, min_dates, parse_dt,
    BatchError, DateParseError, DateRangeError, LocalTime,
};

const DAY: i64 = 86400;

fn at(instant: i64) -> LocalTime {
    LocalTime { instant, offset: 0 }
}

#[test]
fn batch_short_range_is_one_batch() {
    let start = at(1_700_000_000);
    let end = at(1_700_000_000 + 3 * DAY);
    let batches = batch(start, end, 10).unwrap();
    assert_eq!(batches, vec![(start, end)]);
}

#[test]
fn batch_exactly_one_span_is_one_batch() {
    let start = at(1_700_000_000);
    let end = at(1_700_000_000 + 10 * DAY);
    assert_eq!(batch(start, end, 10).unwrap(), vec![(start, end)]);
}

#[test]
fn batch_long_range_tiles_it() {
    let start = LocalTime { instant: 1_700_000_000, offset: 3600 };
    let end = LocalTime { instant: 1_700_000_000 + 25 * DAY + 7, offset: 7200 };
    let batches = batch(start, end, 10).unwrap();
    assert_eq!(batches.len(), 3);
    assert_eq!(batches[0].0, start);
    assert_eq!(batches[2].1, end);
    for i in 0..batches.len() - 1 {
        assert_eq!(batches[i].1, batches[i + 1].0);
    }
    for (from, to) in &batches {
        assert!(from.instant < to.instant);
        assert!(to.instant - from.instant <= 10 * DAY);
    }
    assert_eq!(batches[1].0, LocalTime { instant: 1_700_000_000 + 10 * DAY, offset: 3600 });
    assert_eq!(batches[2].0.instant, 1_700_000_000 + 20 * DAY);
}

#[test]
fn batch_rejects_empty_and_reversed_ranges() {
    let t = at(1_700_000_000);
    assert_eq!(batch(t, t, 10), Err(BatchError::InvalidRange));
    assert_eq!(batch(at(1_700_000_001), t, 10), Err(BatchError::InvalidRange));
}

#[test]
fn batch_rejects_zero_span() {
    assert_eq!(batch(at(0), at(DAY), 0), Err(BatchError::InvalidRange));
}

#[test]
fn create_date_batches_uses_ten_days() {
    let start = at(0);
    let end = at(21 * DAY);
    let batches = create_date_batches(start, end).unwrap();
    assert_eq!(
        batches,
        vec![(at(0), at(10 * DAY)), (at(10 * DAY), at(20 * DAY)), (at(20 * DAY), at(21 * DAY))]
    );
}

#[test]
fn min_dates_prefers_second_on_tie() {
    let a = LocalTime { instant: 5, offset: 0 };
    let b = LocalTime { instant: 5, offset: 60 };
    assert_eq!(min_dates(a, b), b);
    assert_eq!(min_dates(at(4), at(5)), at(4));
    assert_eq!(min_dates(at(6), at(5)), at(5));
}

#[test]
fn day_start_on_fixed_clock() {
    assert_eq!(day_start(at(1_700_000_000)), at(1_699_920_000));
    let t = LocalTime { instant: 1_700_000_000, offset: 3600 };
    assert_eq!(day_start(t), LocalTime { instant: 1_699_916_400, offset: 3600 });
    let early = LocalTime { instant: 100, offset: -3600 };
    assert_eq!(day_start(early), LocalTime { instant: -82800, offset: -3600 });
}

#[test]
fn get_date_range_cases() {
    let now = at(1_700_000_000);
    let s = at(1000);
    let e = at(2000);
    assert_eq!(get_date_range(Some(s), Some(e), now), Ok((s, e)));
    assert_eq!(get_date_range(None, None, now), Ok((at(1_699_920_000 - 10 * DAY), now)));
    assert_eq!(get_date_range(Some(s), None, now), Err(DateRangeError::PartialRange));
    assert_eq!(get_date_range(None, Some(e), now), Err(DateRangeError::PartialRange));
}

#[test]
fn format_wall_clock_has_no_offset() {
    assert_eq!(format_wall_clock(at(1_700_000_000)), "2023-11-14T22:13:20");
    let t = LocalTime { instant: 1_700_000_000, offset: 3600 };
    assert_eq!(format_wall_clock(t), "2023-11-14T23:13:20");
}

#[test]
fn parse_dt_with_offset() {
    let t = parse_dt("2024-01-02T03:04:05+01:00", 0).unwrap();
    assert_eq!(t, at(1_704_161_045));
}

#[test]
fn parse_dt_bare_date_is_local_midnight() {
    let t = parse_dt("2024-01-02", 3600).unwrap();
    assert_eq!(t, LocalTime { instant: 1_704_150_000, offset: 3600 });
}

#[test]
fn parse_dt_rejects_garbage() {
    assert_eq!(parse_dt("yesterday", 0), Err(DateParseError::Unreadable));
}

#[test]
fn parse_dt_rejects_far_dates() {
    assert_eq!(parse_dt("+200000-01-01", 0), Err(DateParseError::OutOfRange));
}

#[test]
fn bound_from_parts_prefers_offset_reading() {
    assert_eq!(bound_from_parts(Some(5), Some(1), 0), Ok(at(5)));
    assert_eq!(
        bound_from_parts(None, Some(1_704_153_600), -3600),
        Ok(LocalTime { instant: 1_704_157_200, offset: -3600 })
    );
    assert_eq!(bound_from_parts(None, None, 0), Err(DateParseError::Unreadable));
    assert_eq!(bound_from_parts(Some(i64::MAX), None, 0), Err(DateParseError::OutOfRange));
    assert_eq!(bound_from_parts(None, Some(i64::MIN), 0), Err(DateParseError::OutOfRange));
}
