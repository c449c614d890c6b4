use telemetry_bridge::measurement::{
    air_quality_measurements, climate_measurements, Measurement, MetricValue,
};
use telemetry_bridge::store::{build_write_point, write_point_now};

#[test]
fn write_point_round_trip() {
    // A store write built from one sweep's measurements produces exactly
    // one point with those four fields and the one device-identity tag.
    let mut ms = climate_measurements("55.2".to_string(), "21.0".to_string());
    ms.extend(air_quality_measurements(410, 30));

    let point = build_write_point(1_700_000_000_000, "dev-123".to_string(), ms);
    assert_eq!(point.timestamp_ms, 1_700_000_000_000);
    assert_eq!(point.device_id, "dev-123");

    let fields: Vec<(&str, String)> =
        point.fields.iter().map(|m| (m.name.as_str(), m.value.render())).collect();
    assert_eq!(
        fields,
        vec![
            ("humidity", "55.2".to_string()),
            ("temperature", "21.0".to_string()),
            ("co2", "410".to_string()),
            ("voc", "30".to_string()),
        ]
    );
}

#[test]
fn duplicate_names_last_value_wins() {
    // Two sensors reporting the same metric name: one field per name, the
    // later reading winning.
    let ms = vec![
        Measurement::new("humidity".to_string(), MetricValue::Whole(1)),
        Measurement::new("co2".to_string(), MetricValue::Whole(2)),
        Measurement::new("humidity".to_string(), MetricValue::Whole(3)),
    ];
    let point = build_write_point(0, "dev".to_string(), ms);

    let fields: Vec<(&str, String)> =
        point.fields.iter().map(|m| (m.name.as_str(), m.value.render())).collect();
    assert_eq!(fields, vec![("co2", "2".to_string()), ("humidity", "3".to_string())]);
}

#[test]
fn no_measurements_store_no_fields() {
    let point = build_write_point(5, "dev".to_string(), Vec::new());
    assert_eq!(point.timestamp_ms, 5);
    assert!(point.fields.is_empty());
}

#[test]
fn write_point_now_stamps_after_epoch() {
    let ms = air_quality_measurements(410, 30);
    let point = write_point_now("dev".to_string(), ms);
    assert!(point.timestamp_ms >= 0);
    assert_eq!(point.device_id, "dev");
    assert_eq!(point.fields.len(), 2);
    assert_eq!(point.fields[0].name, "co2");
    assert_eq!(point.fields[1].name, "voc");
}
