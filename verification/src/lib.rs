//! Telemetry instrumentation core: severity mapping, console log rendering,
//! exporter selection and per-signal provider plans, configuration defaults,
//! the span metadata side table, and the RPC middleware event logic.

use vstd::prelude::*;

pub mod assembly;
pub mod config;
pub mod console;
pub mod decimal;
pub mod id;
pub mod logs;
pub mod metrics;
pub mod rpc;
pub mod severity;
pub mod span;
pub mod text;
pub mod tower;
pub mod traces;

verus! {

/// The two fatal error kinds of the instrumentation subsystem:
/// a bad or unsupported configuration, or a failed exporter construction.
#[derive(Debug)]
pub enum Error {
    Configuration(String),
    Internal(String),
}

impl Error {
    /// The human-readable message carried by either kind.
    pub fn message(&self) -> (r: &String)
        ensures
            r@ == self.spec_message(),
    {
        match self {
            Error::Configuration(m) => m,
            Error::Internal(m) => m,
        }
    }

    pub open spec fn spec_message(&self) -> Seq<char> {
        match self {
            Error::Configuration(m) => m@,
            Error::Internal(m) => m@,
        }
    }
}

/// The closed set of exporter backends a signal can select.
#[derive(Clone, Copy, PartialEq, Eq, Structural, Debug)]
pub enum Exporter {
    Console,
    Noop,
    Otlp,
    Stdout,
}

/// The selection a string denotes, compared case-insensitively against the
/// closed set; anything else is no selection.
pub open spec fn spec_exporter_of(s: Seq<char>) -> Option<Exporter> {
    if text::spec_lower(s) == "console"@ {
        Some(Exporter::Console)
    } else if text::spec_lower(s) == "noop"@ {
        Some(Exporter::Noop)
    } else if text::spec_lower(s) == "otlp"@ {
        Some(Exporter::Otlp)
    } else if text::spec_lower(s) == "stdout"@ {
        Some(Exporter::Stdout)
    } else {
        None
    }
}

impl Exporter {
    /// Parses an exporter-selection string, case-insensitively, against the
    /// closed set; an unrecognized string is a Configuration error that names
    /// it.
    pub fn from_str(s: &str) -> (r: Result<Exporter, Error>)
        ensures
            match spec_exporter_of(s@) {
                Some(e) => r == Ok::<Exporter, Error>(e),
                None => r matches Err(Error::Configuration(m)) && m@ == "unsupported exporter: "@
                    + s@,
            },
    {
        if text::eq_ignore_ascii_case(s, "console") {
            proof {
                reveal_strlit("console");
                lemma_lower_fixpoint("console");
            }
            Ok(Exporter::Console)
        } else if text::eq_ignore_ascii_case(s, "noop") {
            proof {
                reveal_strlit("noop");
                lemma_lower_fixpoint("noop");
            }
            Ok(Exporter::Noop)
        } else if text::eq_ignore_ascii_case(s, "otlp") {
            proof {
                reveal_strlit("otlp");
                lemma_lower_fixpoint("otlp");
            }
            Ok(Exporter::Otlp)
        } else if text::eq_ignore_ascii_case(s, "stdout") {
            proof {
                reveal_strlit("stdout");
                lemma_lower_fixpoint("stdout");
            }
            Ok(Exporter::Stdout)
        } else {
            proof {
                reveal_strlit("console");
                lemma_lower_fixpoint("console");
                reveal_strlit("noop");
                lemma_lower_fixpoint("noop");
                reveal_strlit("otlp");
                lemma_lower_fixpoint("otlp");
                reveal_strlit("stdout");
                lemma_lower_fixpoint("stdout");
            }
            let mut m = "unsupported exporter: ".to_owned();
            m.append(s);
            proof {
                reveal_strlit("unsupported exporter: ");
                assert(m@ =~= "unsupported exporter: "@ + s@);
            }
            Err(Error::Configuration(m))
        }
    }
}

/// The immutable identity attributes attached to every exported event:
/// scope name and version, service name and version, and an optional
/// deployment environment.
#[derive(Debug)]
pub struct Resource {
    pub attributes: Vec<(String, String)>,
}

/// The attribute pairs a resource is built from: the fixed scope and service
/// identity, and the deployment environment exactly when one is supplied.
pub open spec fn spec_resource_attrs(
    service_name: Seq<char>,
    service_version: Seq<char>,
    deployment_env: Option<Seq<char>>,
) -> Seq<(Seq<char>, Seq<char>)> {
    let fixed = seq![
        ("otel.scope.name"@, "rust-libraries/instruments"@),
        ("otel.scope.version"@, "0.1.0"@),
        ("service.name"@, service_name),
        ("service.version"@, service_version),
    ];
    match deployment_env {
        Some(env) => fixed.push(("deployment.environment"@, env)),
        None => fixed,
    }
}

/// Builds the shared resource from the static identity fields plus the
/// optional runtime-supplied deployment-environment tag; absent, the tag is
/// omitted entirely.
pub fn build_resource(
    service_name: &str,
    service_version: &str,
    deployment_env: Option<&String>,
) -> (r: Resource)
    ensures
        r.attributes.deep_view() == spec_resource_attrs(
            service_name@,
            service_version@,
            match deployment_env {
                Some(e) => Some(e@),
                None => None,
            },
        ),
{
    let mut attributes: Vec<(String, String)> = Vec::new();
    attributes.push(("otel.scope.name".to_owned(), "rust-libraries/instruments".to_owned()));
    attributes.push(("otel.scope.version".to_owned(), "0.1.0".to_owned()));
    attributes.push(("service.name".to_owned(), service_name.to_owned()));
    attributes.push(("service.version".to_owned(), service_version.to_owned()));
    match deployment_env {
        Some(env) => {
            attributes.push(("deployment.environment".to_owned(), env.clone()));
            proof {
                assert(attributes.deep_view() =~= spec_resource_attrs(
                    service_name@,
                    service_version@,
                    Some(env@),
                ));
            }
        },
        None => {
            proof {
                assert(attributes.deep_view() =~= spec_resource_attrs(
                    service_name@,
                    service_version@,
                    None,
                ));
            }
        },
    }
    Resource { attributes }
}

/// How a provider delivers events to its exporter: not at all, synchronously
/// on every event, in batches on a background schedule, or by periodic push.
#[derive(Clone, Copy, PartialEq, Eq, Structural, Debug)]
pub enum ExportMode {
    Disabled,
    Immediate,
    Batched,
    PeriodicPush,
}

/// A signal's export pipeline as decided at construction time: the shared
/// resource, the selected exporter, and the delivery mode.
#[derive(Debug)]
pub struct ProviderPlan {
    pub resource: Resource,
    pub exporter: Exporter,
    pub mode: ExportMode,
}

/// Lower-casing a string already free of ASCII upper-case letters keeps it.
proof fn lemma_lower_fixpoint(s: &str)
    requires
        forall|i: int| 0 <= i < s@.len() ==> !('A' <= #[trigger] s@[i] && s@[i] <= 'Z'),
    ensures
        text::spec_lower(s@) == s@,
{
    assert(text::spec_lower(s@) =~= s@);
}

} // verus!
