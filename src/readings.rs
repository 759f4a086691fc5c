//! Entities, resources and readings of the metering API, the plan of
//! requests for a run, and the turning of fetched readings into points.
use vstd::prelude::*;
use crate::dates::{format_wall_clock, wall_clock_text, LocalTime};

verus! {

/// The sampling interval asked of the readings endpoint.
pub const DEFAULT_PERIOD: &'static str = "PT30M";

/// The aggregation asked of the readings endpoint.
pub const DEFAULT_FUNCTION: &'static str = "sum";

/// One meter or utility stream of an entity.
#[derive(Clone, Debug)]
pub struct Resource {
    pub name: String,
    pub resource_id: String,
    pub resource_type_id: String,
}

/// An account or property grouping resources.
#[derive(Debug)]
pub struct Entity {
    pub application_id: String,
    pub postal_code: String,
    pub resources: Vec<Resource>,
    pub owner_id: String,
    pub ve_id: String,
    pub clone: bool,
    pub ve_children: Vec<String>,
    pub attributes: std::collections::HashMap<String, std::collections::HashMap<String, String>>,
    pub ve_type_id: String,
    pub updated_at: String,
    pub created_at: String,
    pub active: bool,
    pub name: String,
}

/// The query parameters of one readings request.
#[derive(Clone, Debug)]
pub struct ResourceQuery {
    pub from: String,
    pub to: String,
    pub period: String,
    pub function: String,
}

/// One row of a reading: a time in Unix seconds and the bit pattern of an
/// IEEE 754 double-precision value.
#[derive(Clone, Copy, Debug, PartialEq, Eq, Structural)]
pub struct ReadingRow {
    pub timestamp: i64,
    pub value_bits: u64,
}

/// The readings of one resource over one window.
#[derive(Clone, Debug)]
pub struct Reading {
    pub status: String,
    pub name: String,
    pub resource_type_id: String,
    pub resource_id: String,
    pub query: ResourceQuery,
    pub data: Vec<ReadingRow>,
    pub units: String,
    pub classifier: String,
}

/// A time-series point: a time in Unix seconds (UTC), the bit pattern of its
/// value, and its tags.
#[derive(Clone, Debug)]
pub struct InfluxValue {
    pub time: i64,
    pub value_bits: u64,
    pub classifier: String,
    pub measurement: String,
}

/// The point made from one row of a reading with the given classifier.
pub open spec fn point_of(row: ReadingRow, classifier: String) -> InfluxValue {
    InfluxValue {
        time: row.timestamp,
        value_bits: row.value_bits,
        classifier: classifier,
        measurement: classifier,
    }
}

/// The points of a reading, one per row, in order.
pub open spec fn points_spec(reading: Reading) -> Seq<InfluxValue> {
    reading.data@.map_values(|row: ReadingRow| point_of(row, reading.classifier))
}

impl ResourceQuery {
    /// A copy of this query.
    pub fn duplicate(&self) -> (r: ResourceQuery)
        ensures
            r == *self,
    {
        ResourceQuery {
            from: self.from.clone(),
            to: self.to.clone(),
            period: self.period.clone(),
            function: self.function.clone(),
        }
    }

    /// The query for the window `[from, to)` with the default period and
    /// aggregation.
    pub fn for_batch(from: LocalTime, to: LocalTime) -> (r: ResourceQuery)
        requires
            from.wf(),
            to.wf(),
        ensures
            query_matches(r, from, to),
    {
        ResourceQuery {
            from: format_wall_clock(from),
            to: format_wall_clock(to),
            period: DEFAULT_PERIOD.to_owned(),
            function: DEFAULT_FUNCTION.to_owned(),
        }
    }
}

/// `q` asks for the window `[from, to)` on the wall clock, with the default
/// period and aggregation.
pub open spec fn query_matches(q: ResourceQuery, from: LocalTime, to: LocalTime) -> bool {
    &&& q.from@ == wall_clock_text(from)
    &&& q.to@ == wall_clock_text(to)
    &&& q.period@ == DEFAULT_PERIOD@
    &&& q.function@ == DEFAULT_FUNCTION@
}

impl Reading {
    /// One point per row, in order, tagged and named by the classifier.
    pub fn to_influx(&self) -> (r: Vec<InfluxValue>)
        ensures
            r@ == points_spec(*self),
    {
        let mut points: Vec<InfluxValue> = Vec::new();
        let mut i: usize = 0;
        while i < self.data.len()
            invariant
                i <= self.data@.len(),
                points@ == points_spec(*self).take(i as int),
            decreases self.data@.len() - i,
        {
            let row = self.data[i];
            points.push(
                InfluxValue {
                    time: row.timestamp,
                    value_bits: row.value_bits,
                    classifier: self.classifier.clone(),
                    measurement: self.classifier.clone(),
                },
            );
            i = i + 1;
            assert(points@ =~= points_spec(*self).take(i as int));
        }
        assert(points_spec(*self).take(i as int) =~= points_spec(*self));
        points
    }
}

/// The resource ids of the entities, entity by entity, in order.
pub open spec fn ids_of(entities: Seq<Entity>) -> Seq<String>
    decreases entities.len(),
{
    if entities.len() == 0 {
        Seq::empty()
    } else {
        ids_of(entities.drop_last()) + entities.last().resources@.map_values(
            |r: Resource| r.resource_id,
        )
    }
}

/// Every (resource, batch) pair: for each resource in order, each batch in
/// order.
pub open spec fn pairs_of(ids: Seq<String>, batches: Seq<(LocalTime, LocalTime)>) -> Seq<
    (String, (LocalTime, LocalTime)),
>
    decreases ids.len(),
{
    if ids.len() == 0 {
        Seq::empty()
    } else {
        pairs_of(ids.drop_last(), batches) + batches.map_values(
            |b: (LocalTime, LocalTime)| (ids.last(), b),
        )
    }
}

/// One readings request: a resource and the query for one batch.
#[derive(Clone, Debug)]
pub struct ReadingRequest {
    pub resource_id: String,
    pub query: ResourceQuery,
}

/// `req` asks for the resource and batch of `pair`.
pub open spec fn request_matches(req: ReadingRequest, pair: (String, (LocalTime, LocalTime))) -> bool {
    &&& req.resource_id == pair.0
    &&& query_matches(req.query, pair.1.0, pair.1.1)
}

/// Lists the resource ids of all entities, in order.
pub fn resource_ids(entities: &Vec<Entity>) -> (r: Vec<String>)
    ensures
        r@ == ids_of(entities@),
{
    let mut ids: Vec<String> = Vec::new();
    let mut e: usize = 0;
    while e < entities.len()
        invariant
            e <= entities@.len(),
            ids@ == ids_of(entities@.take(e as int)),
        decreases entities@.len() - e,
    {
        let resources = &entities[e].resources;
        let ghost before = ids@;
        let mut i: usize = 0;
        while i < resources.len()
            invariant
                e < entities@.len(),
                *resources == entities@[e as int].resources,
                i <= resources@.len(),
                before == ids_of(entities@.take(e as int)),
                ids@ == before + resources@.take(i as int).map_values(|r: Resource| r.resource_id),
            decreases resources@.len() - i,
        {
            ids.push(resources[i].resource_id.clone());
            i = i + 1;
            assert(ids@ =~= before + resources@.take(i as int).map_values(
                |r: Resource| r.resource_id,
            ));
        }
        assert(entities@.take(e + 1).drop_last() =~= entities@.take(e as int));
        assert(resources@.take(i as int) =~= resources@);
        e = e + 1;
    }
    assert(entities@.take(e as int) =~= entities@);
    ids
}

/// Builds one request per (resource, batch) pair: every batch of the first
/// resource, then every batch of the next, and so on.
pub fn plan_requests(entities: &Vec<Entity>, batches: &Vec<(LocalTime, LocalTime)>) -> (r: Vec<
    ReadingRequest,
>)
    requires
        forall|j: int| 0 <= j < batches@.len() ==> (#[trigger] batches@[j]).0.wf() && batches@[j].1.wf(),
    ensures
        r@.len() == pairs_of(ids_of(entities@), batches@).len(),
        forall|k: int|
            0 <= k < r@.len() ==> request_matches(
                #[trigger] r@[k],
                pairs_of(ids_of(entities@), batches@)[k],
            ),
{
    let ids = resource_ids(entities);
    let mut requests: Vec<ReadingRequest> = Vec::new();
    let mut i: usize = 0;
    while i < ids.len()
        invariant
            i <= ids@.len(),
            forall|j: int| 0 <= j < batches@.len() ==> (#[trigger] batches@[j]).0.wf() && batches@[j].1.wf(),
            requests@.len() == pairs_of(ids@.take(i as int), batches@).len(),
            forall|k: int|
                0 <= k < requests@.len() ==> request_matches(
                    #[trigger] requests@[k],
                    pairs_of(ids@.take(i as int), batches@)[k],
                ),
        decreases ids@.len() - i,
    {
        let ghost base = pairs_of(ids@.take(i as int), batches@);
        let mut j: usize = 0;
        while j < batches.len()
            invariant
                i < ids@.len(),
                j <= batches@.len(),
                forall|j: int| 0 <= j < batches@.len() ==> (#[trigger] batches@[j]).0.wf() && batches@[j].1.wf(),
                base == pairs_of(ids@.take(i as int), batches@),
                requests@.len() == base.len() + j,
                forall|k: int|
                    0 <= k < base.len() ==> request_matches(#[trigger] requests@[k], base[k]),
                forall|k: int|
                    base.len() <= k < requests@.len() ==> request_matches(
                        #[trigger] requests@[k],
                        (ids@[i as int], batches@[k - base.len()]),
                    ),
            decreases batches@.len() - j,
        {
            let (from, to) = batches[j];
            let query = ResourceQuery::for_batch(from, to);
            requests.push(ReadingRequest { resource_id: ids[i].clone(), query });
            j = j + 1;
        }
        proof {
            let next = ids@.take(i + 1);
            assert(next.drop_last() =~= ids@.take(i as int));
            let all = pairs_of(next, batches@);
            assert(all == base + batches@.map_values(
                |b: (LocalTime, LocalTime)| (next.last(), b),
            ));
            assert forall|k: int| 0 <= k < requests@.len() implies request_matches(
                #[trigger] requests@[k],
                all[k],
            ) by {
                if k >= base.len() {
                    assert(all[k] == (ids@[i as int], batches@[k - base.len()]));
                }
            }
        }
        i = i + 1;
    }
    assert(ids@.take(i as int) =~= ids@);
    requests
}

/// Why one readings request gave no reading.
#[derive(Clone, Debug)]
pub enum GetReadingsError {
    /// The request failed in transport or with a failure status.
    Request(String),
    /// The answer could not be decoded as a reading.
    Parse(String),
}

impl GetReadingsError {
    /// A copy of this error.
    pub fn duplicate(&self) -> (r: GetReadingsError)
        ensures
            r == *self,
    {
        match self {
            GetReadingsError::Request(m) => GetReadingsError::Request(m.clone()),
            GetReadingsError::Parse(m) => GetReadingsError::Parse(m.clone()),
        }
    }
}

/// A request that gave no reading, with its error.
#[derive(Clone, Debug)]
pub struct FetchFailure {
    pub resource_id: String,
    pub query: ResourceQuery,
    pub error: GetReadingsError,
}

/// What a run of requests produced: the points of every reading fetched,
/// how many requests succeeded, and each failure with its context.
#[derive(Clone, Debug)]
pub struct RunReport {
    pub points: Vec<InfluxValue>,
    pub fetched: usize,
    pub failures: Vec<FetchFailure>,
}

impl RunReport {
    /// Whether the run ends well: it does unless requests were made and every
    /// one of them failed. A run with no requests, or with at least one
    /// reading, ends well even when some requests failed.
    pub fn succeeded(&self) -> (r: bool)
        ensures
            r == (self.fetched > 0 || self.failures@.len() == 0),
    {
        self.fetched > 0 || self.failures.len() == 0
    }
}

/// The points an outcome contributes: a reading's points, or none.
pub open spec fn contribution(outcome: Result<Reading, GetReadingsError>) -> Seq<InfluxValue> {
    match outcome {
        Ok(reading) => points_spec(reading),
        Err(_) => Seq::empty(),
    }
}

/// The points of all outcomes, in order.
pub open spec fn points_of(outcomes: Seq<Result<Reading, GetReadingsError>>) -> Seq<InfluxValue>
    decreases outcomes.len(),
{
    if outcomes.len() == 0 {
        Seq::empty()
    } else {
        points_of(outcomes.drop_last()) + contribution(outcomes.last())
    }
}

/// The number of outcomes that are readings.
pub open spec fn successes(outcomes: Seq<Result<Reading, GetReadingsError>>) -> nat
    decreases outcomes.len(),
{
    if outcomes.len() == 0 {
        0
    } else {
        successes(outcomes.drop_last()) + if outcomes.last() is Ok {
            1nat
        } else {
            0nat
        }
    }
}

/// The failures among the outcomes, each with the request that gave it.
pub open spec fn failures_of(
    requests: Seq<ReadingRequest>,
    outcomes: Seq<Result<Reading, GetReadingsError>>,
) -> Seq<FetchFailure>
    decreases outcomes.len(),
{
    if outcomes.len() == 0 {
        Seq::empty()
    } else {
        let k = outcomes.len() - 1;
        failures_of(requests, outcomes.drop_last()) + match outcomes[k] {
            Ok(_) => Seq::empty(),
            Err(error) => seq![
                FetchFailure {
                    resource_id: requests[k].resource_id,
                    query: requests[k].query,
                    error,
                },
            ],
        }
    }
}

/// Gathers the outcome of each request (`outcomes[k]` answers
/// `requests[k]`): the points of every reading in order, and every failure
/// with its request. A failure drops nothing but its own points.
pub fn collect_points(
    requests: &Vec<ReadingRequest>,
    outcomes: &Vec<Result<Reading, GetReadingsError>>,
) -> (r: RunReport)
    requires
        requests@.len() == outcomes@.len(),
    ensures
        r.points@ == points_of(outcomes@),
        r.fetched == successes(outcomes@),
        r.failures@ == failures_of(requests@, outcomes@),
{
    let mut points: Vec<InfluxValue> = Vec::new();
    let mut failures: Vec<FetchFailure> = Vec::new();
    let mut fetched: usize = 0;
    let mut k: usize = 0;
    while k < outcomes.len()
        invariant
            requests@.len() == outcomes@.len(),
            k <= outcomes@.len(),
            points@ == points_of(outcomes@.take(k as int)),
            fetched == successes(outcomes@.take(k as int)),
            fetched <= k,
            failures@ == failures_of(requests@, outcomes@.take(k as int)),
        decreases outcomes@.len() - k,
    {
        proof {
            let next = outcomes@.take(k + 1);
            assert(next.drop_last() =~= outcomes@.take(k as int));
            assert(next.last() == outcomes@[k as int]);
            assert(next[k as int] == outcomes@[k as int]);
        }
        match &outcomes[k] {
            Ok(reading) => {
                let mut more = reading.to_influx();
                points.append(&mut more);
                fetched = fetched + 1;
                assert(failures@ =~= failures_of(requests@, outcomes@.take(k + 1)));
            },
            Err(error) => {
                failures.push(
                    FetchFailure {
                        resource_id: requests[k].resource_id.clone(),
                        query: requests[k].query.duplicate(),
                        error: error.duplicate(),
                    },
                );
                assert(points@ =~= points_of(outcomes@.take(k + 1)));
            },
        }
        k = k + 1;
    }
    assert(outcomes@.take(k as int) =~= outcomes@);
    RunReport { points, fetched, failures }
}

/// The points of two runs of outcomes, one after the other, are the points
/// of the first followed by those of the second.
pub proof fn lemma_points_of_concat(
    a: Seq<Result<Reading, GetReadingsError>>,
    b: Seq<Result<Reading, GetReadingsError>>,
)
    ensures
        points_of(a + b) == points_of(a) + points_of(b),
    decreases b.len(),
{
    if b.len() == 0 {
        assert(a + b =~= a);
        assert(points_of(b) =~= Seq::<InfluxValue>::empty());
        assert(points_of(a) + points_of(b) =~= points_of(a));
    } else {
        lemma_points_of_concat(a, b.drop_last());
        assert((a + b).drop_last() =~= a + b.drop_last());
        assert((a + b).last() == b.last());
        assert(points_of(a + b) =~= points_of(a) + points_of(b));
    }
}

/// A failed request costs only its own points: the points of a run with a
/// failure at `k` are exactly the points of the same run without it, that is
/// every point of every other reading, in order.
pub proof fn lemma_failure_is_isolated(outcomes: Seq<Result<Reading, GetReadingsError>>, k: int)
    requires
        0 <= k < outcomes.len(),
        outcomes[k] is Err,
    ensures
        points_of(outcomes) == points_of(outcomes.take(k)) + points_of(outcomes.skip(k + 1)),
        points_of(outcomes) == points_of(outcomes.remove(k)),
{
    let before = outcomes.take(k);
    let failed = seq![outcomes[k]];
    let after = outcomes.skip(k + 1);
    assert(outcomes =~= before + failed + after);
    lemma_points_of_concat(before + failed, after);
    lemma_points_of_concat(before, failed);
    assert(failed.drop_last() =~= Seq::<Result<Reading, GetReadingsError>>::empty());
    assert(points_of(failed.drop_last()) == Seq::<InfluxValue>::empty());
    assert(failed.last() is Err);
    assert(points_of(failed) =~= Seq::<InfluxValue>::empty());
    assert(points_of(before) + points_of(failed) =~= points_of(before));
    assert(outcomes.remove(k) =~= before + after);
    lemma_points_of_concat(before, after);
}

} // verus!
