use collectd_rust::metric::{process_metric, CollectdMetric};

fn submission(
    value: Option<&str>,
    values: Option<Vec<&str>>,
) -> CollectdMetric {
    CollectdMetric {
        time: Some(b"1699999999.5".to_vec()),
        host: Some("web1".to_string()),
        plugin: Some("cpu".to_string()),
        plugin_instance: Some("0".to_string()),
        type_: Some("percent".to_string()),
        type_instance: Some("idle".to_string()),
        value: value.map(|v| v.as_bytes().to_vec()),
        values: values.map(|vs| vs.into_iter().map(|v| v.as_bytes().to_vec()).collect()),
    }
}

#[test]
fn scalar_value_yields_one_record() {
    let records = process_metric(submission(Some("42.5"), None));
    assert_eq!(records.len(), 1);
    assert_eq!(records[0].value, b"42.5".to_vec());
    assert_eq!(records[0].time, Some(b"1699999999.5".to_vec()));
    assert_eq!(records[0].host, Some("web1".to_string()));
    assert_eq!(records[0].plugin, Some("cpu".to_string()));
    assert_eq!(records[0].plugin_instance, Some("0".to_string()));
    assert_eq!(records[0].type_, Some("percent".to_string()));
    assert_eq!(records[0].type_instance, Some("idle".to_string()));
}

#[test]
fn values_yield_one_record_each_in_order() {
    let records = process_metric(submission(None, Some(vec!["1", "2", "3"])));
    assert_eq!(records.len(), 3);
    assert_eq!(records[0].value, b"1".to_vec());
    assert_eq!(records[1].value, b"2".to_vec());
    assert_eq!(records[2].value, b"3".to_vec());
    for rec in &records {
        assert_eq!(rec.host, Some("web1".to_string()));
        assert_eq!(rec.type_instance, Some("idle".to_string()));
    }
}

#[test]
fn no_payload_yields_zero_records() {
    let records = process_metric(submission(None, None));
    assert_eq!(records.len(), 0);
}

#[test]
fn values_take_precedence_over_value() {
    let records = process_metric(submission(Some("9"), Some(vec!["1", "2"])));
    assert_eq!(records.len(), 2);
    assert_eq!(records[0].value, b"1".to_vec());
    assert_eq!(records[1].value, b"2".to_vec());
}

#[test]
fn empty_values_array_yields_zero_records() {
    let records = process_metric(submission(Some("9"), Some(vec![])));
    assert_eq!(records.len(), 0);
}

#[test]
fn absent_metadata_stays_absent() {
    let sub = CollectdMetric {
        time: None,
        host: None,
        plugin: None,
        plugin_instance: None,
        type_: None,
        type_instance: None,
        value: Some(b"7".to_vec()),
        values: None,
    };
    let records = process_metric(sub);
    assert_eq!(records.len(), 1);
    assert_eq!(records[0].time, None);
    assert_eq!(records[0].host, None);
    assert_eq!(records[0].value, b"7".to_vec());
}
