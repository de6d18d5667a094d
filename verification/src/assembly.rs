//! Composes the three providers into one pipeline plan: selections parsed
//! first, then the shared resource, then the per-signal plans, each wrapped
//! in its own filter. All-or-nothing: the first failure aborts the whole
//! assembly and no partial pipeline is described.

use vstd::prelude::*;

use crate::config::{Config, RATIO_ONE};
use crate::traces::TraceProviderPlan;
use crate::{logs, metrics, spec_exporter_of, traces};
use crate::{Error, Exporter, ProviderPlan, Resource, spec_resource_attrs};

verus! {

/// The whole active pipeline, as decided at assembly time: the shared
/// resource, one plan per signal, and the three independent textual filters.
#[derive(Debug)]
pub struct AssemblyPlan {
    pub resource: Resource,
    pub logs: ProviderPlan,
    pub logs_filter: String,
    pub metrics: ProviderPlan,
    pub metrics_filter: String,
    pub traces: TraceProviderPlan,
    pub traces_filter: String,
}

/// The first failure the fixed assembly order runs into, as its message:
/// unparsable selections in signal order, then the unsupported combinations
/// in provider-build order. `None` means assembly succeeds.
pub open spec fn spec_assembly_failure(c: Config) -> Option<Seq<char>> {
    if spec_exporter_of(c.logs_exporter@) is None {
        Some("unsupported exporter: "@ + c.logs_exporter@)
    } else if spec_exporter_of(c.metrics_exporter@) is None {
        Some("unsupported exporter: "@ + c.metrics_exporter@)
    } else if spec_exporter_of(c.traces_exporter@) is None {
        Some("unsupported exporter: "@ + c.traces_exporter@)
    } else if spec_exporter_of(c.metrics_exporter@) == Some(Exporter::Console) {
        Some("unsupported metrics exporter: console"@)
    } else if spec_exporter_of(c.traces_exporter@) == Some(Exporter::Console) {
        Some("unsupported traces exporter: console"@)
    } else {
        None
    }
}

/// Assembles the pipeline plan in the fixed order: parse the three exporter
/// selections, build the shared resource, build the logs, metrics and traces
/// plans against it, and attach the per-signal filters. Any failure is a
/// Configuration error and nothing of the pipeline is described.
pub fn assemble(
    config: &Config,
    service_name: &str,
    service_version: &str,
    deployment_env: Option<&String>,
) -> (r: Result<AssemblyPlan, Error>)
    requires
        config.traces_ratio_sample <= RATIO_ONE,
    ensures
        match r {
            Ok(p) => {
                &&& spec_assembly_failure(*config) is None
                &&& p.resource.attributes.deep_view() == spec_resource_attrs(
                    service_name@,
                    service_version@,
                    match deployment_env {
                        Some(e) => Some(e@),
                        None => None,
                    },
                )
                &&& p.logs.resource.attributes.deep_view() == p.resource.attributes.deep_view()
                &&& Some(p.logs.exporter) == spec_exporter_of(config.logs_exporter@)
                &&& p.logs.mode == logs::spec_logs_mode(p.logs.exporter)
                &&& p.logs_filter@ == config.logs_filter@
                &&& p.metrics.resource.attributes.deep_view() == p.resource.attributes.deep_view()
                &&& Some(p.metrics.exporter) == spec_exporter_of(config.metrics_exporter@)
                &&& p.metrics.mode == metrics::spec_metrics_mode(p.metrics.exporter)
                &&& p.metrics_filter@ == config.metrics_filter@
                &&& p.traces.resource.attributes.deep_view() == p.resource.attributes.deep_view()
                &&& Some(p.traces.exporter) == spec_exporter_of(config.traces_exporter@)
                &&& p.traces.mode == traces::spec_traces_mode(p.traces.exporter)
                &&& p.traces.ratio_ppm == config.traces_ratio_sample
                &&& p.traces_filter@ == config.traces_filter@
            },
            Err(e) => {
                &&& e matches Error::Configuration(_)
                &&& spec_assembly_failure(*config) == Some(e.spec_message())
            },
        },
{
    let logs_exporter = match Exporter::from_str(config.logs_exporter.as_str()) {
        Ok(e) => e,
        Err(e) => {
            return Err(e);
        },
    };
    let metrics_exporter = match Exporter::from_str(config.metrics_exporter.as_str()) {
        Ok(e) => e,
        Err(e) => {
            return Err(e);
        },
    };
    let traces_exporter = match Exporter::from_str(config.traces_exporter.as_str()) {
        Ok(e) => e,
        Err(e) => {
            return Err(e);
        },
    };

    let resource = crate::build_resource(service_name, service_version, deployment_env);

    let logs_plan = match logs::new_provider(clone_resource(&resource), logs_exporter) {
        Ok(p) => p,
        Err(e) => {
            return Err(e);
        },
    };
    let metrics_plan = match metrics::new_provider(clone_resource(&resource), metrics_exporter) {
        Ok(p) => p,
        Err(e) => {
            return Err(e);
        },
    };
    let traces_plan = match traces::new_provider(
        clone_resource(&resource),
        traces_exporter,
        config.traces_ratio_sample,
    ) {
        Ok(p) => p,
        Err(e) => {
            return Err(e);
        },
    };

    Ok(
        AssemblyPlan {
            resource,
            logs: logs_plan,
            logs_filter: config.logs_filter.clone(),
            metrics: metrics_plan,
            metrics_filter: config.metrics_filter.clone(),
            traces: traces_plan,
            traces_filter: config.traces_filter.clone(),
        },
    )
}

/// A copy of the resource for one more provider; all three share it.
fn clone_resource(r: &Resource) -> (c: Resource)
    ensures
        c.attributes.deep_view() == r.attributes.deep_view(),
{
    let mut attributes: Vec<(String, String)> = Vec::new();
    let mut i: usize = 0;
    while i < r.attributes.len()
        invariant
            i <= r.attributes@.len(),
            attributes@.len() == i,
            attributes.deep_view() =~= r.attributes.deep_view().subrange(0, i as int),
        decreases r.attributes@.len() - i,
    {
        let pair = (r.attributes[i].0.clone(), r.attributes[i].1.clone());
        let ghost pre = attributes.deep_view();
        let ghost pdv = pair.deep_view();
        proof {
            assert(pdv == r.attributes@[i as int].deep_view());
        }
        attributes.push(pair);
        proof {
            let target = r.attributes.deep_view().subrange(0, (i + 1) as int);
            assert(attributes@.len() == i + 1);
            assert forall|j: int| 0 <= j < i + 1 implies attributes.deep_view()[j] == target[j] by {
                assert(attributes.deep_view()[j] == attributes@[j].deep_view());
                if j < i {
                    assert(attributes@[j].deep_view() == pre[j]);
                } else {
                    assert(attributes@[j].deep_view() == pdv);
                }
            }
            assert(attributes.deep_view() =~= target);
        }
        i += 1;
    }
    proof {
        assert(attributes.deep_view() =~= r.attributes.deep_view());
    }
    Resource { attributes }
}

} // verus!
