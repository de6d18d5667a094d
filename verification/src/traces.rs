//! The trace signal's export pipeline: which selections it supports, how
//! each one delivers, and the ratio-based sampling rule.

use vstd::prelude::*;

use crate::config::RATIO_ONE;
use crate::{Error, ExportMode, Exporter, Resource};

verus! {

/// The trace pipeline: delivery as for the other signals, plus the sampling
/// ratio, in millionths, that decides which traces are kept end-to-end.
#[derive(Debug)]
pub struct TraceProviderPlan {
    pub resource: Resource,
    pub exporter: Exporter,
    pub mode: ExportMode,
    pub ratio_ppm: u32,
}

/// The console selection is the one selection of the closed set that traces
/// do not support.
pub open spec fn spec_traces_supported(e: Exporter) -> bool {
    e != Exporter::Console
}

/// How the trace provider delivers for each supported selection: stdout
/// flushes synchronously, the wire protocol batches on a background
/// schedule, and noop forwards nothing.
pub open spec fn spec_traces_mode(e: Exporter) -> ExportMode {
    match e {
        Exporter::Noop => ExportMode::Disabled,
        Exporter::Otlp => ExportMode::Batched,
        _ => ExportMode::Immediate,
    }
}

/// Constructs the trace provider plan; the console selection fails with a
/// Configuration error naming the unsupported combination.
pub fn new_provider(resource: Resource, exporter: Exporter, ratio_ppm: u32) -> (r: Result<
    TraceProviderPlan,
    Error,
>)
    requires
        ratio_ppm <= RATIO_ONE,
    ensures
        match r {
            Ok(p) => spec_traces_supported(exporter) && p.resource == resource && p.exporter
                == exporter && p.mode == spec_traces_mode(exporter) && p.ratio_ppm == ratio_ppm,
            Err(e) => !spec_traces_supported(exporter) && (e matches Error::Configuration(m)
                && m@ == "unsupported traces exporter: console"@),
        },
{
    let mode = match exporter {
        Exporter::Console => {
            return Err(
                Error::Configuration("unsupported traces exporter: console".to_owned()),
            );
        },
        Exporter::Noop => ExportMode::Disabled,
        Exporter::Otlp => ExportMode::Batched,
        Exporter::Stdout => ExportMode::Immediate,
    };
    Ok(TraceProviderPlan { resource, exporter, mode, ratio_ppm })
}

/// The ratio-based sampling rule: a trace is kept exactly when its uniform
/// identifier draw falls below the ratio's share of the draw space. At ratio
/// zero no trace is ever kept; at ratio one every trace is kept.
pub fn should_sample(ratio_ppm: u32, draw: u64) -> (r: bool)
    requires
        ratio_ppm <= RATIO_ONE,
    ensures
        r == ((draw as int) * 1000000 < (ratio_ppm as int) * 0x10000000000000000),
        ratio_ppm == 0 ==> !r,
        ratio_ppm == RATIO_ONE ==> r,
{
    let lhs: u128 = (draw as u128) * 1000000;
    let rhs: u128 = (ratio_ppm as u128) * 0x10000000000000000;
    proof {
        assert((draw as int) * 1000000 <= 0xffffffffffffffff * 1000000) by (nonlinear_arith)
            requires
                0 <= draw <= 0xffffffffffffffff,
        ;
        if ratio_ppm == RATIO_ONE {
            assert((draw as int) * 1000000 < 1000000 * 0x10000000000000000) by (nonlinear_arith)
                requires
                    0 <= draw <= 0xffffffffffffffff,
            ;
        }
        if ratio_ppm == 0 {
            assert((draw as int) * 1000000 >= 0) by (nonlinear_arith)
                requires
                    0 <= draw,
            ;
        }
    }
    lhs < rhs
}

} // verus!
