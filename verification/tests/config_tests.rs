use instruments::assembly::assemble;
use instruments::config::{parse_ratio, Config};
use instruments::{Error, Exporter};

fn pairs(entries: &[(&str, &str)]) -> Vec<(String, String)> {
    entries.iter().map(|(k, v)| (k.to_string(), v.to_string())).collect()
}

#[test]
fn exporter_parsing_is_case_insensitive() {
    assert_eq!(Exporter::from_str("console").unwrap(), Exporter::Console);
    assert_eq!(Exporter::from_str("CONSOLE").unwrap(), Exporter::Console);
    assert_eq!(Exporter::from_str("Noop").unwrap(), Exporter::Noop);
    assert_eq!(Exporter::from_str("oTlP").unwrap(), Exporter::Otlp);
    assert_eq!(Exporter::from_str("STDOUT").unwrap(), Exporter::Stdout);
}

#[test]
fn unknown_exporter_fails_naming_the_value() {
    let err = Exporter::from_str("syslog").unwrap_err();
    match err {
        Error::Configuration(m) => assert_eq!(m, "unsupported exporter: syslog"),
        Error::Internal(_) => panic!("wrong error kind"),
    }
}

#[test]
fn defaults_apply_when_keys_are_absent() {
    let c = Config::from_pairs(&Vec::new()).unwrap();
    assert_eq!(c.logs_exporter, "console");
    assert_eq!(c.logs_filter, "info");
    assert_eq!(c.metrics_exporter, "noop");
    assert_eq!(c.metrics_filter, "info");
    assert_eq!(c.traces_exporter, "noop");
    assert_eq!(c.traces_filter, "info");
    assert_eq!(c.traces_ratio_sample, 0);
}

#[test]
fn present_keys_override_defaults() {
    let c = Config::from_pairs(&pairs(&[
        ("logs_exporter", "otlp"),
        ("traces_filter", "debug"),
        ("traces_ratio_sample", "0.25"),
    ]))
    .unwrap();
    assert_eq!(c.logs_exporter, "otlp");
    assert_eq!(c.traces_filter, "debug");
    assert_eq!(c.traces_ratio_sample, 250_000);
}

#[test]
fn ratio_accepts_zero_one_and_fractions() {
    assert_eq!(parse_ratio("0"), Some(0));
    assert_eq!(parse_ratio("1"), Some(1_000_000));
    assert_eq!(parse_ratio("0.5"), Some(500_000));
    assert_eq!(parse_ratio("0.000001"), Some(1));
    assert_eq!(parse_ratio("1.0"), Some(1_000_000));
    assert_eq!(parse_ratio("00.25"), Some(250_000));
}

#[test]
fn ratio_rejects_out_of_range_and_malformed() {
    assert_eq!(parse_ratio("2"), None);
    assert_eq!(parse_ratio("1.5"), None);
    assert_eq!(parse_ratio("-1"), None);
    assert_eq!(parse_ratio(""), None);
    assert_eq!(parse_ratio("abc"), None);
    assert_eq!(parse_ratio("0."), None);
    assert_eq!(parse_ratio(".5"), None);
    assert_eq!(parse_ratio("0.1234567"), None);
}

#[test]
fn malformed_ratio_is_a_configuration_error() {
    let err = Config::from_pairs(&pairs(&[("traces_ratio_sample", "fast")])).unwrap_err();
    match err {
        Error::Configuration(m) => assert_eq!(m, "invalid traces_ratio_sample: fast"),
        Error::Internal(_) => panic!("wrong error kind"),
    }
}

#[test]
fn unsupported_metrics_console_fails_assembly_naming_metrics() {
    let c = Config::from_pairs(&pairs(&[
        ("logs_exporter", "stdout"),
        ("metrics_exporter", "console"),
        ("traces_exporter", "noop"),
    ]))
    .unwrap();
    let err = assemble(&c, "svc", "1.0.0", None).unwrap_err();
    match err {
        Error::Configuration(m) => assert_eq!(m, "unsupported metrics exporter: console"),
        Error::Internal(_) => panic!("wrong error kind"),
    }
}

#[test]
fn unsupported_traces_console_fails_assembly_naming_traces() {
    let c = Config::from_pairs(&pairs(&[("traces_exporter", "console")])).unwrap();
    let err = assemble(&c, "svc", "1.0.0", None).unwrap_err();
    match err {
        Error::Configuration(m) => assert_eq!(m, "unsupported traces exporter: console"),
        Error::Internal(_) => panic!("wrong error kind"),
    }
}

#[test]
fn assembly_builds_all_three_plans_with_the_shared_resource() {
    let c = Config::from_pairs(&pairs(&[
        ("logs_exporter", "console"),
        ("metrics_exporter", "otlp"),
        ("traces_exporter", "stdout"),
        ("traces_ratio_sample", "1"),
    ]))
    .unwrap();
    let env = "staging".to_string();
    let plan = assemble(&c, "svc", "1.2.3", Some(&env)).unwrap();

    assert_eq!(plan.logs.exporter, Exporter::Console);
    assert_eq!(plan.logs.mode, instruments::ExportMode::Immediate);
    assert_eq!(plan.metrics.exporter, Exporter::Otlp);
    assert_eq!(plan.metrics.mode, instruments::ExportMode::PeriodicPush);
    assert_eq!(plan.traces.exporter, Exporter::Stdout);
    assert_eq!(plan.traces.mode, instruments::ExportMode::Immediate);
    assert_eq!(plan.traces.ratio_ppm, 1_000_000);
    assert_eq!(plan.logs_filter, "info");

    let attrs = &plan.resource.attributes;
    assert_eq!(attrs.len(), 5);
    assert_eq!(attrs[0], ("otel.scope.name".to_string(), "rust-libraries/instruments".to_string()));
    assert_eq!(attrs[1], ("otel.scope.version".to_string(), "0.1.0".to_string()));
    assert_eq!(attrs[2], ("service.name".to_string(), "svc".to_string()));
    assert_eq!(attrs[3], ("service.version".to_string(), "1.2.3".to_string()));
    assert_eq!(attrs[4], ("deployment.environment".to_string(), "staging".to_string()));
}

#[test]
fn absent_environment_tag_is_omitted_entirely() {
    let c = Config::from_pairs(&Vec::new()).unwrap();
    let plan = assemble(&c, "svc", "1.0.0", None).unwrap();
    assert_eq!(plan.resource.attributes.len(), 4);
}

#[test]
fn otlp_logs_batch_and_noop_disables() {
    let c = Config::from_pairs(&pairs(&[("logs_exporter", "otlp")])).unwrap();
    let plan = assemble(&c, "svc", "1.0.0", None).unwrap();
    assert_eq!(plan.logs.mode, instruments::ExportMode::Batched);
    assert_eq!(plan.metrics.mode, instruments::ExportMode::Disabled);
    assert_eq!(plan.traces.mode, instruments::ExportMode::Disabled);
}
