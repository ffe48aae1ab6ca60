use index_monitor::classify::ReportingMode;
use index_monitor::monitor::Monitor;
use index_monitor::record::LogError;
use index_monitor::record::AlgoliaLog;
use index_monitor::record::RawEntry;

fn entry(timestamp: Option<&str>, method: Option<&str>, payload: &str) -> RawEntry {
    RawEntry {
        timestamp: timestamp.map(|s| s.to_string()),
        method: method.map(|s| s.to_string()),
        payload: payload.to_string(),
    }
}

fn plain(timestamp: &str, payload: &str) -> RawEntry {
    entry(Some(timestamp), None, payload)
}

#[test]
fn verbatim_emission_in_all_logs_mode() {
    let mut monitor = Monitor::new(ReportingMode::AllLogs, 0, 0);
    let out = monitor.ingest_batch(vec![
        plain("2024-05-01T10:00:00.000Z", "{\"a\":1}"),
        plain("2024-05-01T10:00:01.000Z", "{\"b\":2}"),
    ]);
    assert_eq!(out, vec!["{\"a\":1}".to_string(), "{\"b\":2}".to_string()]);
}

#[test]
fn second_run_on_same_batch_emits_nothing() {
    // idempotence: the watermark advanced by the first run filters out
    // every entry of the identical second batch, and stays where it was
    let batch = || {
        vec![
            plain("2024-05-01T10:00:00.000Z", "{\"a\":1}"),
            plain("2024-05-01T10:00:01.000Z", "{\"b\":2}"),
        ]
    };
    let mut monitor = Monitor::new(ReportingMode::AllLogs, 0, 0);
    let first = monitor.ingest_batch(batch());
    assert_eq!(first.len(), 2);
    let wm_after_first = monitor.watermark.clone();
    let second = monitor.ingest_batch(batch());
    assert_eq!(second.len(), 0);
    assert_eq!(monitor.watermark, wm_after_first);
}

#[test]
fn watermark_never_moves_backwards() {
    let mut monitor = Monitor::new(ReportingMode::AllLogs, 0, 0);
    let batches = vec![
        vec![plain("2024-05-01T10:00:00.000Z", "{}")],
        vec![plain("2024-05-01T09:00:00.000Z", "{}")],
        vec![plain("2024-05-01T12:00:00.000Z", "{}")],
        vec![],
    ];
    let mut previous = monitor.watermark.clone();
    for batch in batches {
        monitor.ingest_batch(batch);
        assert!(monitor.watermark >= previous);
        previous = monitor.watermark.clone();
    }
}

#[test]
fn out_of_order_batch_advances_to_newest() {
    // the newer timestamp stands before the older one; the watermark must
    // advance to the newer one, not the last one seen
    let mut monitor = Monitor::new(ReportingMode::AllLogs, 0, 0);
    let out = monitor.ingest_batch(vec![
        plain("2024-05-02T00:00:00.000Z", "{\"newer\":1}"),
        plain("2024-05-01T00:00:00.000Z", "{\"older\":1}"),
    ]);
    assert_eq!(out.len(), 2);
    assert_eq!(monitor.watermark, "2024-05-02T00:00:00.000Z");
}

#[test]
fn emission_preserves_batch_order() {
    let mut monitor = Monitor::new(ReportingMode::AllLogs, 0, 0);
    let out = monitor.ingest_batch(vec![
        plain("2024-05-02T00:00:00.000Z", "{\"newer\":1}"),
        plain("2024-05-01T00:00:00.000Z", "{\"older\":1}"),
    ]);
    assert_eq!(out, vec!["{\"newer\":1}".to_string(), "{\"older\":1}".to_string()]);
}

#[test]
fn delete_marker_gets_delete_prefix() {
    let mut monitor = Monitor::new(ReportingMode::ChangeTriggered, 0, 0);
    let out = monitor.ingest_batch(vec![entry(
        Some("2024-05-01T10:00:00.000Z"),
        Some("POST"),
        "{\"op\":\"delete\"}",
    )]);
    assert_eq!(out, vec!["DELETE:{\"op\":\"delete\"}".to_string()]);
}

#[test]
fn marker_inside_other_text_still_classifies_as_delete() {
    // the delete test is a plain substring match on the payload
    let mut monitor = Monitor::new(ReportingMode::ChangeTriggered, 0, 0);
    let out = monitor.ingest_batch(vec![entry(
        Some("2024-05-01T10:00:00.000Z"),
        Some("POST"),
        "{\"note\":\"undeleted\"}",
    )]);
    assert_eq!(out, vec!["DELETE:{\"note\":\"undeleted\"}".to_string()]);
}

#[test]
fn other_mutations_get_update_prefix() {
    let mut monitor = Monitor::new(ReportingMode::ChangeTriggered, 0, 0);
    let out = monitor.ingest_batch(vec![
        entry(Some("2024-05-01T10:00:00.000Z"), Some("POST"), "{\"op\":\"add\"}"),
        entry(Some("2024-05-01T10:00:01.000Z"), None, "{\"op\":\"put\"}"),
    ]);
    assert_eq!(
        out,
        vec!["UPDATE:{\"op\":\"add\"}".to_string(), "UPDATE:{\"op\":\"put\"}".to_string()]
    );
}

#[test]
fn read_records_are_never_emitted() {
    let mut monitor = Monitor::new(ReportingMode::ChangeTriggered, 0, 0);
    let out = monitor.ingest_batch(vec![
        entry(Some("2024-05-01T10:00:00.000Z"), Some("GET"), "{\"op\":\"query\"}"),
        entry(Some("2024-05-01T10:00:01.000Z"), Some("POST"), "{\"op\":\"add\"}"),
    ]);
    assert_eq!(out, vec!["UPDATE:{\"op\":\"add\"}".to_string()]);
    // a read entry still advances the watermark when it is the newest
    let out = monitor.ingest_batch(vec![entry(
        Some("2024-05-01T10:00:02.000Z"),
        Some("GET"),
        "{\"op\":\"query\"}",
    )]);
    assert_eq!(out.len(), 0);
    assert_eq!(monitor.watermark, "2024-05-01T10:00:02.000Z");
}

#[test]
fn entry_without_timestamp_is_skipped() {
    // a malformed entry costs exactly its own line: three fetched, two out
    let mut monitor = Monitor::new(ReportingMode::AllLogs, 0, 0);
    let out = monitor.ingest_batch(vec![
        plain("2024-05-01T10:00:00.000Z", "{\"a\":1}"),
        entry(None, None, "{\"broken\":true}"),
        plain("2024-05-01T10:00:02.000Z", "{\"c\":3}"),
    ]);
    assert_eq!(out, vec!["{\"a\":1}".to_string(), "{\"c\":3}".to_string()]);
    assert_eq!(monitor.watermark, "2024-05-01T10:00:02.000Z");
}

#[test]
fn from_entry_rejects_missing_timestamp() {
    let r = AlgoliaLog::from_entry(entry(None, None, "{}"));
    assert!(matches!(r, Err(LogError::MalformedLogEntry)));
}

#[test]
fn from_entry_keeps_fields() {
    let r = AlgoliaLog::from_entry(entry(
        Some("2024-05-01T10:00:00.000Z"),
        Some("POST"),
        "{\"a\":1}",
    ))
    .unwrap();
    assert_eq!(r.timestamp, "2024-05-01T10:00:00.000Z");
    assert_eq!(r.method.as_deref(), Some("POST"));
    assert_eq!(r.raw_payload, "{\"a\":1}");
}

#[test]
fn is_newer_is_strict_text_order() {
    let r = AlgoliaLog::from_entry(plain("2024-05-01T10:00:00.000Z", "{}")).unwrap();
    assert!(r.is_newer(&"2024-05-01T09:59:59.999Z".to_string()));
    assert!(r.is_newer(&"0000-00-00T00:00:00.000Z".to_string()));
    assert!(!r.is_newer(&"2024-05-01T10:00:00.000Z".to_string()));
    assert!(!r.is_newer(&"2024-05-01T10:00:00.001Z".to_string()));
}
