use instruments::severity::{severity_to_str, Color, Severity};

fn check(severity: Option<Severity>, label: &str, color: Color) {
    let (l, c) = severity_to_str(severity);
    assert_eq!(l, label);
    assert_eq!(c, color);
}

#[test]
fn trace_tier_collapses_all_sublevels() {
    check(Some(Severity::Trace), "TRACE", Color::Magenta);
    check(Some(Severity::Trace2), "TRACE", Color::Magenta);
    check(Some(Severity::Trace3), "TRACE", Color::Magenta);
    check(Some(Severity::Trace4), "TRACE", Color::Magenta);
}

#[test]
fn debug_tier_collapses_all_sublevels() {
    check(Some(Severity::Debug), "DEBUG", Color::Cyan);
    check(Some(Severity::Debug2), "DEBUG", Color::Cyan);
    check(Some(Severity::Debug3), "DEBUG", Color::Cyan);
    check(Some(Severity::Debug4), "DEBUG", Color::Cyan);
}

#[test]
fn info_tier_collapses_all_sublevels() {
    check(Some(Severity::Info), "INFO", Color::Blue);
    check(Some(Severity::Info2), "INFO", Color::Blue);
    check(Some(Severity::Info3), "INFO", Color::Blue);
    check(Some(Severity::Info4), "INFO", Color::Blue);
}

#[test]
fn warn_tier_collapses_all_sublevels() {
    check(Some(Severity::Warn), "WARN", Color::Yellow);
    check(Some(Severity::Warn2), "WARN", Color::Yellow);
    check(Some(Severity::Warn3), "WARN", Color::Yellow);
    check(Some(Severity::Warn4), "WARN", Color::Yellow);
}

#[test]
fn error_tier_collapses_all_sublevels() {
    check(Some(Severity::Error), "ERROR", Color::Red);
    check(Some(Severity::Error2), "ERROR", Color::Red);
    check(Some(Severity::Error3), "ERROR", Color::Red);
    check(Some(Severity::Error4), "ERROR", Color::Red);
}

#[test]
fn fatal_tier_collapses_all_sublevels() {
    check(Some(Severity::Fatal), "FATAL", Color::Red);
    check(Some(Severity::Fatal2), "FATAL", Color::Red);
    check(Some(Severity::Fatal3), "FATAL", Color::Red);
    check(Some(Severity::Fatal4), "FATAL", Color::Red);
}

#[test]
fn missing_severity_is_unknown() {
    check(None, "UNKNOWN", Color::Dimmed);
}
