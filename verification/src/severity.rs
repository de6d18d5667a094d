//! Maps a log record's severity to its fixed display label and color class.

use vstd::prelude::*;

verus! {

/// The graded severity scale: four sub-levels for each of the six tiers.
#[derive(Clone, Copy, PartialEq, Eq, Structural, Debug)]
pub enum Severity {
    Trace,
    Trace2,
    Trace3,
    Trace4,
    Debug,
    Debug2,
    Debug3,
    Debug4,
    Info,
    Info2,
    Info3,
    Info4,
    Warn,
    Warn2,
    Warn3,
    Warn4,
    Error,
    Error2,
    Error3,
    Error4,
    Fatal,
    Fatal2,
    Fatal3,
    Fatal4,
}

/// The color class a severity label is displayed in.
#[derive(Clone, Copy, PartialEq, Eq, Structural, Debug)]
pub enum Color {
    Magenta,
    Cyan,
    Blue,
    Yellow,
    Red,
    Dimmed,
}

/// The tier label for a severity: all four sub-levels of a tier collapse to
/// the tier's label, and a missing severity maps to UNKNOWN.
pub open spec fn spec_severity_label(severity: Option<Severity>) -> Seq<char> {
    match severity {
        Some(Severity::Trace) | Some(Severity::Trace2) | Some(Severity::Trace3)
            | Some(Severity::Trace4) => "TRACE"@,
        Some(Severity::Debug) | Some(Severity::Debug2) | Some(Severity::Debug3)
            | Some(Severity::Debug4) => "DEBUG"@,
        Some(Severity::Info) | Some(Severity::Info2) | Some(Severity::Info3)
            | Some(Severity::Info4) => "INFO"@,
        Some(Severity::Warn) | Some(Severity::Warn2) | Some(Severity::Warn3)
            | Some(Severity::Warn4) => "WARN"@,
        Some(Severity::Error) | Some(Severity::Error2) | Some(Severity::Error3)
            | Some(Severity::Error4) => "ERROR"@,
        Some(Severity::Fatal) | Some(Severity::Fatal2) | Some(Severity::Fatal3)
            | Some(Severity::Fatal4) => "FATAL"@,
        None => "UNKNOWN"@,
    }
}

/// The color class for a severity: one fixed color per tier, dimmed when the
/// severity is missing.
pub open spec fn spec_severity_color(severity: Option<Severity>) -> Color {
    match severity {
        Some(Severity::Trace) | Some(Severity::Trace2) | Some(Severity::Trace3)
            | Some(Severity::Trace4) => Color::Magenta,
        Some(Severity::Debug) | Some(Severity::Debug2) | Some(Severity::Debug3)
            | Some(Severity::Debug4) => Color::Cyan,
        Some(Severity::Info) | Some(Severity::Info2) | Some(Severity::Info3)
            | Some(Severity::Info4) => Color::Blue,
        Some(Severity::Warn) | Some(Severity::Warn2) | Some(Severity::Warn3)
            | Some(Severity::Warn4) => Color::Yellow,
        Some(Severity::Error) | Some(Severity::Error2) | Some(Severity::Error3)
            | Some(Severity::Error4) => Color::Red,
        Some(Severity::Fatal) | Some(Severity::Fatal2) | Some(Severity::Fatal3)
            | Some(Severity::Fatal4) => Color::Red,
        None => Color::Dimmed,
    }
}

/// Maps a severity to its display label and color class. Pure and total:
/// every sub-level of a tier yields the tier's label, and `None` yields
/// UNKNOWN in the dimmed class.
pub fn severity_to_str(severity: Option<Severity>) -> (r: (&'static str, Color))
    ensures
        r.0@ == spec_severity_label(severity),
        r.1 == spec_severity_color(severity),
{
    match severity {
        Some(Severity::Trace) | Some(Severity::Trace2) | Some(Severity::Trace3)
            | Some(Severity::Trace4) => ("TRACE", Color::Magenta),
        Some(Severity::Debug) | Some(Severity::Debug2) | Some(Severity::Debug3)
            | Some(Severity::Debug4) => ("DEBUG", Color::Cyan),
        Some(Severity::Info) | Some(Severity::Info2) | Some(Severity::Info3)
            | Some(Severity::Info4) => ("INFO", Color::Blue),
        Some(Severity::Warn) | Some(Severity::Warn2) | Some(Severity::Warn3)
            | Some(Severity::Warn4) => ("WARN", Color::Yellow),
        Some(Severity::Error) | Some(Severity::Error2) | Some(Severity::Error3)
            | Some(Severity::Error4) => ("ERROR", Color::Red),
        Some(Severity::Fatal) | Some(Severity::Fatal2) | Some(Severity::Fatal3)
            | Some(Severity::Fatal4) => ("FATAL", Color::Red),
        None => ("UNKNOWN", Color::Dimmed),
    }
}

} // verus!
