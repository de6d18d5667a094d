//! The log signal's export pipeline: which selections it supports and how
//! each one delivers.

use vstd::prelude::*;

use crate::{Error, ExportMode, Exporter, ProviderPlan, Resource};

verus! {

/// How the log provider delivers for each selection: console and stdout
/// flush synchronously, the wire protocol batches on a background schedule,
/// and noop forwards nothing.
pub open spec fn spec_logs_mode(e: Exporter) -> ExportMode {
    match e {
        Exporter::Console => ExportMode::Immediate,
        Exporter::Noop => ExportMode::Disabled,
        Exporter::Otlp => ExportMode::Batched,
        Exporter::Stdout => ExportMode::Immediate,
    }
}

/// Constructs the log provider plan: every selection of the closed set is
/// supported for logs, so construction cannot fail on the selection.
pub fn new_provider(resource: Resource, exporter: Exporter) -> (r: Result<ProviderPlan, Error>)
    ensures
        r matches Ok(p) && p.resource == resource && p.exporter == exporter && p.mode
            == spec_logs_mode(exporter),
{
    let mode = match exporter {
        Exporter::Console => ExportMode::Immediate,
        Exporter::Noop => ExportMode::Disabled,
        Exporter::Otlp => ExportMode::Batched,
        Exporter::Stdout => ExportMode::Immediate,
    };
    Ok(ProviderPlan { resource, exporter, mode })
}

} // verus!
