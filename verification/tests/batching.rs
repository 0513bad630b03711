use collectd_rust::assembler::BatchAssembler;
use collectd_rust::metric::ProcessedMetric;

fn record(value: &str) -> ProcessedMetric {
    ProcessedMetric {
        time: None,
        host: Some("web1".to_string()),
        plugin: None,
        plugin_instance: None,
        type_: None,
        type_instance: None,
        value: value.as_bytes().to_vec(),
    }
}

#[test]
fn size_triggered_flush() {
    let mut a = BatchAssembler::new(3, 1000, 0);
    assert!(a.on_record(record("1"), 10).is_none());
    assert!(a.on_record(record("2"), 11).is_none());
    let flushed = a.on_record(record("3"), 12);
    let batch = flushed.expect("reaching the batch size must flush immediately");
    assert_eq!(batch.len(), 3);
    assert_eq!(batch[0].value, b"1".to_vec());
    assert_eq!(batch[1].value, b"2".to_vec());
    assert_eq!(batch[2].value, b"3".to_vec());
    assert_eq!(a.buffer.len(), 0);
    assert_eq!(a.last_flush_ms, 12);
}

#[test]
fn time_triggered_flush() {
    let mut a = BatchAssembler::new(100, 100, 0);
    assert!(a.on_record(record("only"), 5).is_none());
    // Not yet past the interval: no flush.
    assert!(a.on_tick(50).is_none());
    // Past the interval: the one buffered record is flushed without the
    // size threshold having been reached.
    let batch = a.on_tick(105).expect("an elapsed interval must flush");
    assert_eq!(batch.len(), 1);
    assert_eq!(batch[0].value, b"only".to_vec());
    assert_eq!(a.buffer.len(), 0);
    assert_eq!(a.last_flush_ms, 105);
}

#[test]
fn tick_at_exact_interval_does_not_flush() {
    let mut a = BatchAssembler::new(100, 100, 0);
    assert!(a.on_record(record("r"), 1).is_none());
    // The elapsed time must strictly exceed the interval.
    assert!(a.on_tick(100).is_none());
    assert!(a.on_tick(101).is_some());
}

#[test]
fn tick_with_empty_buffer_does_not_flush() {
    let mut a = BatchAssembler::new(2, 10, 0);
    assert!(a.on_tick(1_000_000).is_none());
}

#[test]
fn shutdown_flush_loses_nothing() {
    let mut a = BatchAssembler::new(100, 1000, 0);
    assert!(a.on_record(record("a"), 1).is_none());
    assert!(a.on_record(record("b"), 2).is_none());
    let batch = a.on_close().expect("closure must flush the remaining buffer");
    assert_eq!(batch.len(), 2);
    assert_eq!(batch[0].value, b"a".to_vec());
    assert_eq!(batch[1].value, b"b".to_vec());
    assert!(a.on_close().is_none());
}

#[test]
fn batch_size_one_flushes_every_record() {
    let mut a = BatchAssembler::new(1, 1000, 0);
    let batch = a.on_record(record("x"), 3).expect("batch size one flushes at once");
    assert_eq!(batch.len(), 1);
    assert_eq!(a.buffer.len(), 0);
}
