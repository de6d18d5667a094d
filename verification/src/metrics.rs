//! The metric signal's export pipeline: which selections it supports and how
//! each one delivers.

use vstd::prelude::*;

use crate::{Error, ExportMode, Exporter, ProviderPlan, Resource};

verus! {

/// The console selection is the one selection of the closed set that metrics
/// do not support.
pub open spec fn spec_metrics_supported(e: Exporter) -> bool {
    e != Exporter::Console
}

/// How the metric provider delivers for each supported selection: stdout
/// flushes synchronously, the wire protocol pushes periodically, and noop
/// forwards nothing.
pub open spec fn spec_metrics_mode(e: Exporter) -> ExportMode {
    match e {
        Exporter::Noop => ExportMode::Disabled,
        Exporter::Otlp => ExportMode::PeriodicPush,
        _ => ExportMode::Immediate,
    }
}

/// Constructs the metric provider plan; the console selection fails with a
/// Configuration error naming the unsupported combination.
pub fn new_provider(resource: Resource, exporter: Exporter) -> (r: Result<ProviderPlan, Error>)
    ensures
        match r {
            Ok(p) => spec_metrics_supported(exporter) && p.resource == resource && p.exporter
                == exporter && p.mode == spec_metrics_mode(exporter),
            Err(e) => !spec_metrics_supported(exporter) && (e matches Error::Configuration(m)
                && m@ == "unsupported metrics exporter: console"@),
        },
{
    let mode = match exporter {
        Exporter::Console => {
            return Err(
                Error::Configuration("unsupported metrics exporter: console".to_owned()),
            );
        },
        Exporter::Noop => ExportMode::Disabled,
        Exporter::Otlp => ExportMode::PeriodicPush,
        Exporter::Stdout => ExportMode::Immediate,
    };
    Ok(ProviderPlan { resource, exporter, mode })
}

} // verus!
