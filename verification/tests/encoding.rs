use collectd_rust::encode::{disk_batch_bytes, record_json, udp_batch_bytes};
use collectd_rust::metric::ProcessedMetric;

fn full_record() -> ProcessedMetric {
    ProcessedMetric {
        time: Some(b"1699999999.5".to_vec()),
        host: Some("web1".to_string()),
        plugin: Some("cpu".to_string()),
        plugin_instance: Some("0".to_string()),
        type_: Some("percent".to_string()),
        type_instance: Some("idle".to_string()),
        value: b"42.5".to_vec(),
    }
}

fn bare_record(value: &str) -> ProcessedMetric {
    ProcessedMetric {
        time: None,
        host: None,
        plugin: None,
        plugin_instance: None,
        type_: None,
        type_instance: None,
        value: value.as_bytes().to_vec(),
    }
}

fn parse(bytes: &[u8]) -> serde_json::Value {
    serde_json::from_slice(bytes).expect("sink output must be valid JSON")
}

#[test]
fn record_line_round_trips_with_equal_fields() {
    let v = parse(&record_json(&full_record()));
    let obj = v.as_object().expect("one record is one JSON object");
    assert_eq!(obj.len(), 7);
    let time: serde_json::Value = serde_json::from_str("1699999999.5").unwrap();
    assert_eq!(obj.get("time").unwrap(), &time);
    assert_eq!(obj.get("host").unwrap(), &serde_json::Value::String("web1".into()));
    assert_eq!(obj.get("plugin").unwrap(), &serde_json::Value::String("cpu".into()));
    assert_eq!(obj.get("plugin_instance").unwrap(), &serde_json::Value::String("0".into()));
    assert_eq!(obj.get("type").unwrap(), &serde_json::Value::String("percent".into()));
    assert_eq!(obj.get("type_instance").unwrap(), &serde_json::Value::String("idle".into()));
    let value: serde_json::Value = serde_json::from_str("42.5").unwrap();
    assert_eq!(obj.get("value").unwrap(), &value);
}

#[test]
fn absent_fields_are_explicit_nulls() {
    let v = parse(&record_json(&bare_record("7")));
    let obj = v.as_object().unwrap();
    assert_eq!(obj.len(), 7);
    assert!(obj.get("time").unwrap().is_null());
    assert!(obj.get("host").unwrap().is_null());
    assert!(obj.get("plugin").unwrap().is_null());
    assert!(obj.get("plugin_instance").unwrap().is_null());
    assert!(obj.get("type").unwrap().is_null());
    assert!(obj.get("type_instance").unwrap().is_null());
    assert_eq!(obj.get("value").unwrap(), &serde_json::Value::Number(7.into()));
}

#[test]
fn exact_bytes_of_a_bare_record() {
    let bytes = record_json(&bare_record("7"));
    let expected = r#"{"time":null,"host":null,"plugin":null,"plugin_instance":null,"type":null,"type_instance":null,"value":7}"#;
    assert_eq!(bytes, expected.as_bytes().to_vec());
}

#[test]
fn metadata_strings_are_escaped() {
    let mut rec = bare_record("1");
    let tricky = "quote \" backslash \\ newline \n tab \t bell \u{0007} end";
    rec.host = Some(tricky.to_string());
    let v = parse(&record_json(&rec));
    assert_eq!(v.get("host").unwrap(), &serde_json::Value::String(tricky.to_string()));
}

#[test]
fn structured_payload_value_is_kept() {
    let mut rec = bare_record("x");
    rec.value = br#"{"a":[1,2,{"b":null}]}"#.to_vec();
    let v = parse(&record_json(&rec));
    let expected: serde_json::Value = serde_json::from_str(r#"{"a":[1,2,{"b":null}]}"#).unwrap();
    assert_eq!(v.get("value").unwrap(), &expected);
}

#[test]
fn disk_batch_is_one_json_line_per_record() {
    let batch = vec![bare_record("1"), bare_record("2"), bare_record("3")];
    let bytes = disk_batch_bytes(&batch);
    assert_eq!(*bytes.last().unwrap(), b'\n');
    let lines: Vec<&[u8]> = bytes.split(|b| *b == b'\n').filter(|l| !l.is_empty()).collect();
    assert_eq!(lines.len(), 3);
    for (i, line) in lines.iter().enumerate() {
        let v = parse(line);
        let expected = serde_json::Value::Number((i as u64 + 1).into());
        assert_eq!(v.get("value").unwrap(), &expected);
    }
}

#[test]
fn udp_batch_is_one_array_in_order() {
    let batch = vec![bare_record("10"), bare_record("20"), bare_record("30")];
    let v = parse(&udp_batch_bytes(&batch));
    let arr = v.as_array().expect("one UDP batch is one JSON array");
    assert_eq!(arr.len(), 3);
    assert_eq!(arr[0].get("value").unwrap(), &serde_json::Value::Number(10.into()));
    assert_eq!(arr[1].get("value").unwrap(), &serde_json::Value::Number(20.into()));
    assert_eq!(arr[2].get("value").unwrap(), &serde_json::Value::Number(30.into()));
}

#[test]
fn empty_udp_batch_is_empty_array() {
    let bytes = udp_batch_bytes(&vec![]);
    assert_eq!(bytes, b"[]".to_vec());
}

#[test]
fn empty_disk_batch_is_empty() {
    let bytes = disk_batch_bytes(&vec![]);
    assert!(bytes.is_empty());
}
