use glowmarkt::dates::LocalTime;
use glowmarkt::readings::{
    collect_points, plan_requests, resource_ids, Entity, GetReadingsError, Reading, ReadingRow,
    Resource, ResourceQuery, DEFAULT_FUNCTION, DEFAULT_PERIOD,
};
use std::collections::HashMap;

fn resource(id: &str) -> Resource {
    Resource { name: "meter".to_string(), resource_id: id.to_string(), resource_type_id: "t".to_string() }
}

fn entity(ids: &[&str]) -> Entity {
    Entity {
        application_id: "app".to_string(),
        postal_code: "AB1".to_string(),
        resources: ids.iter().map(|i| resource(i)).collect(),
        owner_id: "o".to_string(),
        ve_id: "v".to_string(),
        clone: false,
        ve_children: Vec::new(),
        attributes: HashMap::new(),
        ve_type_id: "vt".to_string(),
        updated_at: "u".to_string(),
        created_at: "c".to_string(),
        active: true,
        name: "home".to_string(),
    }
}

fn query() -> ResourceQuery {
    ResourceQuery {
        from: "2023-11-14T00:00:00".to_string(),
        to: "2023-11-15T00:00:00".to_string(),
        period: "PT30M".to_string(),
        function: "sum".to_string(),
    }
}

fn reading(classifier: &str, rows: &[(i64, f64)]) -> Reading {
    Reading {
        status: "OK".to_string(),
        name: "n".to_string(),
        resource_type_id: "t".to_string(),
        resource_id: "r".to_string(),
        query: query(),
        data: rows.iter().map(|(t, v)| ReadingRow { timestamp: *t, value_bits: v.to_bits() }).collect(),
        units: "kWh".to_string(),
        classifier: classifier.to_string(),
    }
}

#[test]
fn to_influx_two_rows() {
    let r = reading("electricity.consumption", &[(1700000000, 3.5), (1700001800, 4.0)]);
    let points = r.to_influx();
    assert_eq!(points.len(), 2);
    assert_eq!(points[0].time, 1700000000);
    assert_eq!(points[1].time, 1700001800);
    assert_eq!(f64::from_bits(points[0].value_bits), 3.5);
    assert_eq!(f64::from_bits(points[1].value_bits), 4.0);
    for p in &points {
        assert_eq!(p.classifier, "electricity.consumption");
        assert_eq!(p.measurement, "electricity.consumption");
    }
}

#[test]
fn to_influx_empty_data() {
    assert!(reading("gas.consumption", &[]).to_influx().is_empty());
}

#[test]
fn resource_ids_in_order() {
    let entities = vec![entity(&["a", "b"]), entity(&[]), entity(&["c"])];
    assert_eq!(resource_ids(&entities), vec!["a".to_string(), "b".to_string(), "c".to_string()]);
}

#[test]
fn for_batch_formats_wall_clock() {
    let from = LocalTime { instant: 1_700_000_000, offset: 0 };
    let to = LocalTime { instant: 1_700_003_600, offset: 3600 };
    let q = ResourceQuery::for_batch(from, to);
    assert_eq!(q.from, "2023-11-14T22:13:20");
    assert_eq!(q.to, "2023-11-15T00:13:20");
    assert_eq!(q.period, "PT30M");
    assert_eq!(q.function, "sum");
    assert_eq!(DEFAULT_PERIOD, "PT30M");
    assert_eq!(DEFAULT_FUNCTION, "sum");
}

#[test]
fn plan_requests_every_resource_every_batch() {
    let entities = vec![entity(&["a"]), entity(&["b"])];
    let t = |s: i64| LocalTime { instant: s, offset: 0 };
    let batches = vec![(t(0), t(86400)), (t(86400), t(100000))];
    let plan = plan_requests(&entities, &batches);
    let got: Vec<(String, String, String)> =
        plan.iter().map(|r| (r.resource_id.clone(), r.query.from.clone(), r.query.to.clone())).collect();
    assert_eq!(
        got,
        vec![
            ("a".to_string(), "1970-01-01T00:00:00".to_string(), "1970-01-02T00:00:00".to_string()),
            ("a".to_string(), "1970-01-02T00:00:00".to_string(), "1970-01-02T03:46:40".to_string()),
            ("b".to_string(), "1970-01-01T00:00:00".to_string(), "1970-01-02T00:00:00".to_string()),
            ("b".to_string(), "1970-01-02T00:00:00".to_string(), "1970-01-02T03:46:40".to_string()),
        ]
    );
}

fn request(id: &str) -> glowmarkt::readings::ReadingRequest {
    glowmarkt::readings::ReadingRequest { resource_id: id.to_string(), query: query() }
}

#[test]
fn failure_does_not_stop_other_points() {
    let requests = vec![request("a"), request("b"), request("c")];
    let outcomes = vec![
        Ok(reading("x", &[(1, 1.0)])),
        Err(GetReadingsError::Parse("bad json".to_string())),
        Ok(reading("y", &[(2, 2.0), (3, 3.0)])),
    ];
    let report = collect_points(&requests, &outcomes);
    let times: Vec<i64> = report.points.iter().map(|p| p.time).collect();
    assert_eq!(times, vec![1, 2, 3]);
    assert_eq!(report.fetched, 2);
    assert_eq!(report.failures.len(), 1);
    assert_eq!(report.failures[0].resource_id, "b");
    assert!(matches!(&report.failures[0].error, GetReadingsError::Parse(m) if m == "bad json"));
    assert!(report.succeeded());
}

#[test]
fn all_failures_is_unsuccessful() {
    let requests = vec![request("a")];
    let outcomes = vec![Err(GetReadingsError::Request("timeout".to_string()))];
    let report = collect_points(&requests, &outcomes);
    assert!(report.points.is_empty());
    assert_eq!(report.fetched, 0);
    assert!(!report.succeeded());
}

#[test]
fn no_requests_is_successful() {
    let report = collect_points(&Vec::new(), &Vec::new());
    assert!(report.points.is_empty());
    assert!(report.succeeded());
}
