use telemetry_bridge::measurement::{
    air_quality_measurements, climate_measurements, Measurement, MetricValue,
};
use telemetry_bridge::publish::build_publish_requests;

#[test]
fn climate_family_topics_and_order() {
    let ms = climate_measurements("55.2".to_string(), "21.0".to_string());
    let reqs = build_publish_requests("dev-123", &ms);

    let got: Vec<(&str, &str)> =
        reqs.iter().map(|r| (r.topic.as_str(), r.payload.as_str())).collect();
    assert_eq!(
        got,
        vec![
            // Liveness sentinels first, one pair per family.
            ("dev-123/humidity/online", "true"),
            ("dev-123/humidity/active", "true"),
            ("dev-123/temperature/online", "true"),
            ("dev-123/temperature/active", "true"),
            // Then the metric topics, in measurement order.
            ("dev-123/humidity", "55.2"),
            ("dev-123/temperature", "21.0"),
        ]
    );
    assert!(reqs.iter().all(|r| r.at_least_once));
}

#[test]
fn air_quality_family_topics_and_composite() {
    // co2 410 -> bucket 2, voc 30 -> bucket 2: composite index 2.
    let ms = air_quality_measurements(410, 30);
    let reqs = build_publish_requests("dev-123", &ms);

    let got: Vec<(&str, &str)> =
        reqs.iter().map(|r| (r.topic.as_str(), r.payload.as_str())).collect();
    assert_eq!(
        got,
        vec![
            ("dev-123/aq/online", "true"),
            ("dev-123/aq/active", "true"),
            ("dev-123/aq", "2"),
            ("dev-123/aq/co2", "410"),
            ("dev-123/aq/voc", "30"),
        ]
    );
}

#[test]
fn composite_reports_the_better_dimension() {
    // co2 100 -> bucket 1, voc 400 -> bucket 4: the composite is 1.
    let ms = air_quality_measurements(100, 400);
    let reqs = build_publish_requests("dev", &ms);
    let aq: Vec<&str> =
        reqs.iter().filter(|r| r.topic == "dev/aq").map(|r| r.payload.as_str()).collect();
    assert_eq!(aq, vec!["1"]);
}

#[test]
fn both_families_liveness_before_metrics() {
    let mut ms = climate_measurements("55.2".to_string(), "21.0".to_string());
    ms.extend(air_quality_measurements(410, 30));
    let reqs = build_publish_requests("dev", &ms);

    let got: Vec<(&str, &str)> =
        reqs.iter().map(|r| (r.topic.as_str(), r.payload.as_str())).collect();
    assert_eq!(
        got,
        vec![
            ("dev/humidity/online", "true"),
            ("dev/humidity/active", "true"),
            ("dev/temperature/online", "true"),
            ("dev/temperature/active", "true"),
            ("dev/aq/online", "true"),
            ("dev/aq/active", "true"),
            ("dev/humidity", "55.2"),
            ("dev/temperature", "21.0"),
            ("dev/aq", "2"),
            ("dev/aq/co2", "410"),
            ("dev/aq/voc", "30"),
        ]
    );
}

#[test]
fn aq_liveness_emitted_once_per_tick() {
    let ms = air_quality_measurements(410, 30);
    let reqs = build_publish_requests("dev", &ms);
    let online = reqs.iter().filter(|r| r.topic == "dev/aq/online").count();
    let active = reqs.iter().filter(|r| r.topic == "dev/aq/active").count();
    assert_eq!(online, 1);
    assert_eq!(active, 1);
}

#[test]
fn lone_aq_metric_has_no_composite() {
    // Only a co2 reading, no voc: the individual metric still goes out, but
    // no composite can be derived.
    let ms = vec![Measurement::new("co2".to_string(), MetricValue::Whole(410))];
    let reqs = build_publish_requests("dev", &ms);

    let got: Vec<(&str, &str)> =
        reqs.iter().map(|r| (r.topic.as_str(), r.payload.as_str())).collect();
    assert_eq!(
        got,
        vec![
            ("dev/aq/online", "true"),
            ("dev/aq/active", "true"),
            ("dev/aq/co2", "410"),
        ]
    );
}

#[test]
fn no_measurements_publish_nothing() {
    let ms: Vec<Measurement> = Vec::new();
    let reqs = build_publish_requests("dev", &ms);
    assert!(reqs.is_empty());
}
