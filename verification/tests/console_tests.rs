use instruments::console::{render_line, AnyValue, LogRecord, LogsExporter};
use instruments::severity::Severity;

fn record(
    observed: Option<u64>,
    emitted: Option<u64>,
    severity: Option<Severity>,
    body: Option<AnyValue>,
    attributes: Option<Vec<(String, AnyValue)>>,
) -> LogRecord {
    LogRecord { timestamp: emitted, observed_timestamp: observed, severity_number: severity, body, attributes }
}

#[test]
fn epoch_record_renders_exact_line() {
    let r = record(
        Some(0),
        None,
        Some(Severity::Info),
        Some(AnyValue::Text("hello".to_string())),
        None,
    );
    let line = render_line(&r).unwrap();
    assert_eq!(line, "1970-01-01T00:00:00.000000000+00:00    INFO hello");
}

#[test]
fn no_timestamp_renders_nothing() {
    let r = record(None, None, Some(Severity::Info), Some(AnyValue::Text("hello".to_string())), None);
    assert!(render_line(&r).is_none());
}

#[test]
fn emit_time_is_the_fallback() {
    let with_observed = record(
        Some(1_000_000_000),
        Some(2_000_000_000),
        None,
        Some(AnyValue::Text("x".to_string())),
        None,
    );
    let fallback = record(None, Some(2_000_000_000), None, Some(AnyValue::Text("x".to_string())), None);
    assert_eq!(
        render_line(&with_observed).unwrap(),
        "1970-01-01T00:00:01.000000000+00:00 UNKNOWN x"
    );
    assert_eq!(
        render_line(&fallback).unwrap(),
        "1970-01-01T00:00:02.000000000+00:00 UNKNOWN x"
    );
}

#[test]
fn non_string_body_renders_nothing() {
    let int_body = record(Some(0), None, Some(Severity::Info), Some(AnyValue::Int(7)), None);
    let no_body = record(Some(0), None, Some(Severity::Info), None, None);
    assert!(render_line(&int_body).is_none());
    assert!(render_line(&no_body).is_none());
}

#[test]
fn scalar_attributes_render_and_others_are_omitted() {
    let attrs = vec![
        ("count".to_string(), AnyValue::Int(-3)),
        ("ratio".to_string(), AnyValue::Double("0.5".to_string())),
        ("blob".to_string(), AnyValue::Other),
        ("name".to_string(), AnyValue::Text("svc".to_string())),
        ("ok".to_string(), AnyValue::Bool(true)),
    ];
    let r = record(
        Some(0),
        None,
        Some(Severity::Warn),
        Some(AnyValue::Text("ready".to_string())),
        Some(attrs),
    );
    let line = render_line(&r).unwrap();
    assert_eq!(
        line,
        "1970-01-01T00:00:00.000000000+00:00    WARN ready, count=-3 ratio=0.5 name=svc ok=true"
    );
}

#[test]
fn export_appends_lines_in_batch_order_and_skips_unrenderable() {
    let mut exporter = LogsExporter::new();
    let batch = vec![
        record(Some(0), None, Some(Severity::Info), Some(AnyValue::Text("one".to_string())), None),
        record(None, None, Some(Severity::Info), Some(AnyValue::Text("dropped".to_string())), None),
        record(Some(0), None, Some(Severity::Error), Some(AnyValue::Text("two".to_string())), None),
    ];
    assert!(exporter.export(batch).is_ok());
    let out = exporter.drain().unwrap();
    assert_eq!(
        out,
        "1970-01-01T00:00:00.000000000+00:00    INFO one\n\
         1970-01-01T00:00:00.000000000+00:00   ERROR two\n"
    );
}

#[test]
fn export_after_shutdown_fails() {
    let mut exporter = LogsExporter::new();
    exporter.shutdown();
    let batch = vec![record(
        Some(0),
        None,
        Some(Severity::Info),
        Some(AnyValue::Text("late".to_string())),
        None,
    )];
    let err = exporter.export(batch);
    assert!(err.is_err());
    assert_eq!(err.unwrap_err().message(), "exporter is shut down");
    assert!(exporter.drain().is_none());
}

#[test]
fn default_exporter_starts_open_and_empty() {
    let mut exporter = LogsExporter::default();
    assert_eq!(exporter.drain().unwrap(), "");
}
