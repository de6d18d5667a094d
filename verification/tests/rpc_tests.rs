use instruments::rpc::{RPCLayer, RPCVisitor, SpanStore};
use instruments::span::{method_from_span, service_from_span};
use instruments::tower::{
    classification_from_headers, code_name, FailureClass, InstrumentsMakeSpan, InstrumentsOnEos,
    InstrumentsOnFailure, InstrumentsOnRequest, InstrumentsOnResponse, Level, MetricKind,
};
use instruments::traces::should_sample;

fn headers(entries: &[(&str, &str)]) -> Vec<(String, String)> {
    entries.iter().map(|(k, v)| (k.to_string(), v.to_string())).collect()
}

#[test]
fn make_span_splits_service_and_method() {
    let span = InstrumentsMakeSpan.make_span("/orders.Service/Create");
    assert_eq!(span.name, "orders.Service/Create");
    assert_eq!(span.kind, "Server");
    assert_eq!(span.system, "grpc");
    assert_eq!(span.method.as_deref(), Some("Create"));
    assert_eq!(span.service.as_deref(), Some("orders.Service"));
}

#[test]
fn make_span_without_slash_has_no_parts() {
    let span = InstrumentsMakeSpan.make_span("/health");
    assert_eq!(span.name, "health");
    assert!(span.method.is_none());
    assert!(span.service.is_none());
}

#[test]
fn visitor_keeps_only_method_and_service_fields() {
    let mut v = RPCVisitor::new();
    v.record_str("rpc.method", "Create");
    v.record_str("rpc.system", "grpc");
    v.record_str("rpc.service", "orders.Service");
    assert_eq!(v.rpc_method.as_deref(), Some("Create"));
    assert_eq!(v.rpc_service.as_deref(), Some("orders.Service"));
}

#[test]
fn span_store_roundtrip_and_removal() {
    let layer = RPCLayer;
    let mut store = SpanStore::new();
    let fields = vec![
        ("rpc.method".to_string(), "Create".to_string()),
        ("rpc.service".to_string(), "orders.Service".to_string()),
    ];
    layer.on_new_span(&mut store, 7, &fields);
    assert_eq!(method_from_span(&store, 7).as_deref(), Some("Create"));
    assert_eq!(service_from_span(&store, 7).as_deref(), Some("orders.Service"));

    store.remove(7);
    assert!(method_from_span(&store, 7).is_none());
    assert!(service_from_span(&store, 7).is_none());
}

#[test]
fn span_without_metadata_yields_empty_lookups() {
    let layer = RPCLayer;
    let mut store = SpanStore::new();
    layer.on_new_span(&mut store, 9, &Vec::new());
    assert!(method_from_span(&store, 9).is_none());
    assert!(service_from_span(&store, 9).is_none());
    assert!(method_from_span(&store, 10).is_none());
}

#[test]
fn code_names_follow_the_fixed_table() {
    assert_eq!(code_name(0), Some("ok"));
    assert_eq!(code_name(2), Some("unknown"));
    assert_eq!(code_name(5), Some("not_found"));
    assert_eq!(code_name(13), Some("internal"));
    assert_eq!(code_name(16), Some("unauthenticated"));
    assert_eq!(code_name(17), None);
    assert_eq!(code_name(-1), None);
}

#[test]
fn classification_defaults_to_ok_and_decodes_the_message() {
    let (code, message) = classification_from_headers(&headers(&[]));
    assert_eq!(code, Some("ok"));
    assert!(message.is_none());

    let (code, message) = classification_from_headers(&headers(&[
        ("grpc-status", "13"),
        ("grpc-message", "Hello%20World"),
    ]));
    assert_eq!(code, Some("internal"));
    assert_eq!(message.as_deref(), Some("Hello World"));

    let (code, _) = classification_from_headers(&headers(&[("grpc-status", "nope")]));
    assert_eq!(code, Some("ok"));
}

#[test]
fn on_request_echoes_method_and_service() {
    let event = InstrumentsOnRequest.on_request(Some("Create".to_string()), None);
    assert_eq!(event.level, Level::Debug);
    assert_eq!(event.message, "request processing started");
    assert_eq!(event.fields[0], ("rpc.method".to_string(), Some("Create".to_string())));
    assert_eq!(event.fields[1], ("rpc.service".to_string(), None));
}

#[test]
fn on_response_emits_latency_histogram_and_summary() {
    let (metric, log) = InstrumentsOnResponse.on_response(
        &headers(&[("grpc-status", "0")]),
        42,
        Some("Create".to_string()),
        Some("orders.Service".to_string()),
    );
    assert_eq!(metric.kind, MetricKind::Histogram);
    assert_eq!(metric.name, "rpc_response_latency");
    assert_eq!(metric.value, 42);
    assert_eq!(metric.tags[0], ("rpc.code".to_string(), Some("ok".to_string())));
    assert_eq!(log.level, Level::Debug);
    assert_eq!(log.message, "request processing finished");
    assert_eq!(log.fields[4], ("latency".to_string(), Some("42ms".to_string())));
}

#[test]
fn on_eos_emits_duration_histogram_without_classification() {
    let (metric, log) =
        InstrumentsOnEos.on_eos(1500, Some("Watch".to_string()), Some("orders.Service".to_string()));
    assert_eq!(metric.kind, MetricKind::Histogram);
    assert_eq!(metric.name, "rpc_stream_duration");
    assert_eq!(metric.value, 1500);
    assert_eq!(metric.tags.len(), 2);
    assert_eq!(log.level, Level::Debug);
    assert_eq!(log.message, "stream ended");
    assert_eq!(log.fields[1], ("stream_duration".to_string(), Some("1500ms".to_string())));
}

#[test]
fn internal_failure_counts_and_logs_loudly() {
    let (metric, log) = InstrumentsOnFailure.on_failure(
        FailureClass::Code(13),
        10,
        Some("Create".to_string()),
        Some("orders.Service".to_string()),
    );
    assert_eq!(metric.kind, MetricKind::Counter);
    assert_eq!(metric.name, "rpc_failure");
    assert_eq!(metric.value, 1);
    assert_eq!(metric.tags[0], ("rpc.code".to_string(), Some("internal".to_string())));
    assert_eq!(log.level, Level::Error);
    assert_eq!(log.message, "request failed");
}

#[test]
fn not_found_failure_logs_quietly() {
    let (metric, log) = InstrumentsOnFailure.on_failure(FailureClass::Code(5), 10, None, None);
    assert_eq!(metric.tags[0], ("rpc.code".to_string(), Some("not_found".to_string())));
    assert_eq!(log.level, Level::Debug);
}

#[test]
fn transport_errors_classify_as_unknown_and_log_loudly() {
    let (metric, log) =
        InstrumentsOnFailure.on_failure(FailureClass::Error("broken pipe".to_string()), 3, None, None);
    assert_eq!(metric.tags[0], ("rpc.code".to_string(), Some("unknown".to_string())));
    assert_eq!(log.level, Level::Error);
}

#[test]
fn sampling_edges_never_and_always_keep() {
    for draw in [0u64, 1, 1 << 20, u64::MAX / 2, u64::MAX - 1, u64::MAX] {
        assert!(!should_sample(0, draw));
        assert!(should_sample(1_000_000, draw));
    }
    assert!(should_sample(500_000, 0));
    assert!(!should_sample(500_000, u64::MAX));
}

#[test]
fn random_ids_carry_prefix_and_alphanumeric_suffix() {
    let id = instruments::id::new("req", 16);
    assert_eq!(id.len(), 3 + 1 + 16);
    assert!(id.starts_with("req_"));
    assert!(id[4..].chars().all(|c| c.is_ascii_alphanumeric()));
    let other = instruments::id::new("req", 16);
    assert_eq!(other.len(), 20);
}

#[test]
fn decimal_rendering_matches_expected_values() {
    assert_eq!(instruments::decimal::u64_to_dec(0), "0");
    assert_eq!(instruments::decimal::u64_to_dec(12345), "12345");
    assert_eq!(instruments::decimal::i64_to_dec(-42), "-42");
    assert_eq!(instruments::decimal::i64_to_dec(i64::MIN), "-9223372036854775808");
}
