//! The RPC trace middleware's decisions: the span derived from a request's
//! routing path, and the metric and log events derived at each of the four
//! observation points of a call.

use vstd::prelude::*;

use crate::decimal;
use crate::text;

verus! {

/// The level a middleware log event is emitted at.
#[derive(Clone, Copy, PartialEq, Eq, Structural, Debug)]
pub enum Level {
    Trace,
    Debug,
    Info,
    Warn,
    Error,
}

/// One structured log event: level, message, and named fields whose values
/// may be absent.
pub struct LogEvent {
    pub level: Level,
    pub message: String,
    pub fields: Vec<(String, Option<String>)>,
}

/// Whether a metric event increments a counter or records into a histogram.
#[derive(Clone, Copy, PartialEq, Eq, Structural, Debug)]
pub enum MetricKind {
    Counter,
    Histogram,
}

/// One metric event: kind, instrument name, value, and tags whose values
/// may be absent.
pub struct MetricEvent {
    pub kind: MetricKind,
    pub name: String,
    pub value: u64,
    pub tags: Vec<(String, Option<String>)>,
}

/// The span the middleware opens for an inbound call: its name is the
/// routing path without the leading slash, the method and service are the
/// parts after and before the first slash of that name, and the kind marker
/// is fixed to the server side.
pub struct SpanPlan {
    pub name: String,
    pub kind: String,
    pub system: String,
    pub method: Option<String>,
    pub service: Option<String>,
}

/// The span name a routing path yields: the path without its leading slash.
pub open spec fn spec_span_name(path: Seq<char>) -> Seq<char> {
    path.subrange(1, path.len() as int)
}

/// The method part: what follows the first slash of the span name, if the
/// span name has one.
pub open spec fn spec_method_part(path: Seq<char>) -> Option<Seq<char>> {
    let name = spec_span_name(path);
    match text::spec_find(name, '/') {
        Some(i) => Some(name.subrange(i + 1, name.len() as int)),
        None => None,
    }
}

/// The service part: what precedes the first slash of the span name, if the
/// span name has one.
pub open spec fn spec_service_part(path: Seq<char>) -> Option<Seq<char>> {
    let name = spec_span_name(path);
    match text::spec_find(name, '/') {
        Some(i) => Some(name.subrange(0, i)),
        None => None,
    }
}

/// Derives the middleware's span from a request's routing path: the name is
/// the path without its leading slash, split at its first slash into
/// service and method, with the fixed server-kind marker.
pub struct InstrumentsMakeSpan;

impl InstrumentsMakeSpan {
    /// The span for one inbound call.
    pub fn make_span(&self, path: &str) -> (r: SpanPlan)
        requires
            path@.len() >= 1,
        ensures
            r.name@ == spec_span_name(path@),
            r.kind@ == "Server"@,
            r.system@ == "grpc"@,
            match r.method {
                Some(m) => spec_method_part(path@) == Some(m@),
                None => spec_method_part(path@) is None,
            },
            match r.service {
                Some(s) => spec_service_part(path@) == Some(s@),
                None => spec_service_part(path@) is None,
            },
    {
        let len = path.unicode_len();
        let name = path.substring_char(1, len);
        let name_len = name.unicode_len();
        let (method, service) = match text::find_char(name, '/') {
            Some(i) => {
                proof {
                    text::lemma_find_position(name@, '/');
                }
                let m = name.substring_char(i + 1, name_len).to_owned();
                let s = name.substring_char(0, i).to_owned();
                (Some(m), Some(s))
            },
            None => (None, None),
        };
        SpanPlan {
            name: name.to_owned(),
            kind: "Server".to_owned(),
            system: "grpc".to_owned(),
            method,
            service,
        }
    }
}

/// The fixed lookup table from a status code to its symbolic name; a code
/// outside the table has none.
pub open spec fn spec_code_name(code: int) -> Option<Seq<char>> {
    if code == 0 {
        Some("ok"@)
    } else if code == 1 {
        Some("cancelled"@)
    } else if code == 2 {
        Some("unknown"@)
    } else if code == 3 {
        Some("invalid_argument"@)
    } else if code == 4 {
        Some("deadline_exceeded"@)
    } else if code == 5 {
        Some("not_found"@)
    } else if code == 6 {
        Some("already_exists"@)
    } else if code == 7 {
        Some("permission_denied"@)
    } else if code == 8 {
        Some("resource_exhausted"@)
    } else if code == 9 {
        Some("failed_precondition"@)
    } else if code == 10 {
        Some("aborted"@)
    } else if code == 11 {
        Some("out_of_range"@)
    } else if code == 12 {
        Some("unimplemented"@)
    } else if code == 13 {
        Some("internal"@)
    } else if code == 14 {
        Some("unavailable"@)
    } else if code == 15 {
        Some("data_loss"@)
    } else if code == 16 {
        Some("unauthenticated"@)
    } else {
        None
    }
}

/// The symbolic name of a status code, from the fixed table; unknown codes
/// map to none.
pub fn code_name(code: i32) -> (r: Option<&'static str>)
    ensures
        match r {
            Some(n) => spec_code_name(code as int) == Some(n@),
            None => spec_code_name(code as int) is None,
        },
{
    match code {
        0 => Some("ok"),
        1 => Some("cancelled"),
        2 => Some("unknown"),
        3 => Some("invalid_argument"),
        4 => Some("deadline_exceeded"),
        5 => Some("not_found"),
        6 => Some("already_exists"),
        7 => Some("permission_denied"),
        8 => Some("resource_exhausted"),
        9 => Some("failed_precondition"),
        10 => Some("aborted"),
        11 => Some("out_of_range"),
        12 => Some("unimplemented"),
        13 => Some("internal"),
        14 => Some("unavailable"),
        15 => Some("data_loss"),
        16 => Some("unauthenticated"),
        _ => None,
    }
}

/// The parsed integer a string denotes, as `i32` reads it: an optional sign
/// followed by digits, within the type's range; anything else denotes no
/// integer.
pub open spec fn spec_parse_i32(s: Seq<char>) -> Option<int> {
    if s.len() == 0 {
        None
    } else {
        let neg = s[0] == '-';
        let digits = if s[0] == '-' || s[0] == '+' {
            s.drop_first()
        } else {
            s
        };
        if digits.len() == 0 || !decimal::spec_all_digits(digits) {
            None
        } else {
            let v = if neg {
                -decimal::spec_digits_val(digits)
            } else {
                decimal::spec_digits_val(digits)
            };
            if -0x80000000 <= v <= 0x7fffffff {
                Some(v)
            } else {
                None
            }
        }
    }
}

/// Parses a decimal integer with an optional sign, as the status header
/// carries one.
pub fn parse_i32(s: &str) -> (r: Option<i32>)
    ensures
        match r {
            Some(v) => spec_parse_i32(s@) == Some(v as int),
            None => spec_parse_i32(s@) is None,
        },
{
    let len = s.unicode_len();
    if len == 0 {
        return None;
    }
    let first = s.get_char(0);
    let neg = first == '-';
    let digits = if first == '-' || first == '+' {
        s.substring_char(1, len)
    } else {
        s
    };
    proof {
        if first == '-' || first == '+' {
            assert(digits@ =~= s@.drop_first());
        }
    }
    let v = match decimal::digits_val_capped(digits, 0x80000001) {
        None => {
            return None;
        },
        Some(v) => v,
    };
    if v >= 0x80000001 {
        return None;
    }
    if neg {
        Some((-(v as i64)) as i32)
    } else {
        if v > 0x7fffffff {
            return None;
        }
        Some(v as i32)
    }
}

/// What percent-decoding makes of a header value: the decoded text when the
/// decoded bytes are well-formed, nothing otherwise. A fixed function of
/// the characters alone.
pub uninterp spec fn spec_percent_decoded(s: Seq<char>) -> Option<Seq<char>>;

/// Relies on percent_encoding's `percent_decode_str` and `decode_utf8`:
/// the decoding depends on the characters alone, and a value without a '%'
/// passes through unchanged.
#[verifier::external_body]
fn percent_decode_utf8(s: &str) -> (r: Option<String>)
    ensures
        match r {
            Some(t) => spec_percent_decoded(s@) == Some(t@) && (!s@.contains('%') ==> t@ == s@),
            None => spec_percent_decoded(s@) is None && s@.contains('%'),
        },
{
    match percent_encoding::percent_decode_str(s).decode_utf8() {
        Ok(decoded) => Some(decoded.into_owned()),
        Err(_) => None,
    }
}

/// The status code a response's headers carry: the integer value of the
/// status header, with zero both for an absent header and for one that does
/// not parse.
pub open spec fn spec_status_code(headers: Seq<(String, String)>) -> int {
    match crate::config::spec_lookup(headers, "grpc-status"@) {
        None => 0,
        Some(v) => match spec_parse_i32(v) {
            Some(c) => c,
            None => 0,
        },
    }
}

/// The optional message a response's headers carry, percent-decoded.
pub open spec fn spec_status_message(headers: Seq<(String, String)>) -> Option<Seq<char>> {
    match crate::config::spec_lookup(headers, "grpc-message"@) {
        None => None,
        Some(v) => spec_percent_decoded(v),
    }
}

/// Classifies a response by its status headers into the symbolic code name
/// and the percent-decoded optional message.
pub fn classification_from_headers(headers: &Vec<(String, String)>) -> (r: (
    Option<&'static str>,
    Option<String>,
))
    ensures
        match r.0 {
            Some(n) => spec_code_name(spec_status_code(headers@)) == Some(n@),
            None => spec_code_name(spec_status_code(headers@)) is None,
        },
        match r.1 {
            Some(m) => spec_status_message(headers@) == Some(m@),
            None => spec_status_message(headers@) is None,
        },
{
    let code: i32 = match crate::config::lookup(headers, "grpc-status") {
        None => 0,
        Some(v) => match parse_i32(v.as_str()) {
            Some(c) => c,
            None => 0,
        },
    };
    let message = match crate::config::lookup(headers, "grpc-message") {
        None => None,
        Some(v) => percent_decode_utf8(v.as_str()),
    };
    (code_name(code), message)
}

/// The view of an optional string.
pub open spec fn spec_opt_text(o: Option<String>) -> Option<Seq<char>> {
    match o {
        Some(s) => Some(s@),
        None => None,
    }
}

/// A latency or duration in milliseconds, as logged: the decimal value with
/// the unit appended.
pub open spec fn spec_ms_text(ms: u64) -> Seq<char> {
    decimal::spec_dec(ms as nat) + "ms"@
}

fn ms_text(ms: u64) -> (r: String)
    ensures
        r@ == spec_ms_text(ms),
{
    let mut r = decimal::u64_to_dec(ms);
    r.append("ms");
    proof {
        reveal_strlit("ms");
    }
    r
}

fn clone_opt(o: &Option<String>) -> (r: Option<String>)
    ensures
        spec_opt_text(r) == spec_opt_text(*o),
{
    match o {
        Some(s) => Some(s.clone()),
        None => None,
    }
}

/// Observes the start of request processing: a purely observational
/// debug-level log echoing the span's method and service.
pub struct InstrumentsOnRequest;

impl InstrumentsOnRequest {
    /// The log event emitted when request processing starts.
    pub fn on_request(&self, method: Option<String>, service: Option<String>) -> (r: LogEvent)
        ensures
            r.level == Level::Debug,
            r.message@ == "request processing started"@,
            r.fields.deep_view() == seq![
                ("rpc.method"@, spec_opt_text(method)),
                ("rpc.service"@, spec_opt_text(service)),
            ],
    {
        let mut fields: Vec<(String, Option<String>)> = Vec::new();
        fields.push(("rpc.method".to_owned(), method));
        fields.push(("rpc.service".to_owned(), service));
        proof {
            assert(fields.deep_view() =~= seq![
                ("rpc.method"@, spec_opt_text(method)),
                ("rpc.service"@, spec_opt_text(service)),
            ]);
        }
        LogEvent { level: Level::Debug, message: "request processing started".to_owned(), fields }
    }
}

/// Observes a normal completion: a latency histogram tagged with code,
/// method and service, and a debug-level summary log.
pub struct InstrumentsOnResponse;

impl InstrumentsOnResponse {
    /// The metric and log events emitted when a response completes, derived
    /// from the status headers and the span's stored method and service.
    pub fn on_response(
        &self,
        headers: &Vec<(String, String)>,
        latency_ms: u64,
        method: Option<String>,
        service: Option<String>,
    ) -> (r: (MetricEvent, LogEvent))
        ensures
            r.0.kind == MetricKind::Histogram,
            r.0.name@ == "rpc_response_latency"@,
            r.0.value == latency_ms,
            r.0.tags.deep_view() == seq![
                ("rpc.code"@, spec_code_name(spec_status_code(headers@))),
                ("rpc.method"@, spec_opt_text(method)),
                ("rpc.service"@, spec_opt_text(service)),
            ],
            r.1.level == Level::Debug,
            r.1.message@ == "request processing finished"@,
            r.1.fields.deep_view() == seq![
                ("rpc.method"@, spec_opt_text(method)),
                ("rpc.code"@, spec_code_name(spec_status_code(headers@))),
                ("rpc.message"@, spec_status_message(headers@)),
                ("rpc.service"@, spec_opt_text(service)),
                ("latency"@, Some(spec_ms_text(latency_ms))),
            ],
    {
        let (rpc_code, rpc_message) = classification_from_headers(headers);
        let code_text: Option<String> = match rpc_code {
            Some(n) => Some(n.to_owned()),
            None => None,
        };

        let mut tags: Vec<(String, Option<String>)> = Vec::new();
        tags.push(("rpc.code".to_owned(), clone_opt(&code_text)));
        tags.push(("rpc.method".to_owned(), clone_opt(&method)));
        tags.push(("rpc.service".to_owned(), clone_opt(&service)));
        proof {
            assert(tags.deep_view() =~= seq![
                ("rpc.code"@, spec_code_name(spec_status_code(headers@))),
                ("rpc.method"@, spec_opt_text(method)),
                ("rpc.service"@, spec_opt_text(service)),
            ]);
        }
        let metric = MetricEvent {
            kind: MetricKind::Histogram,
            name: "rpc_response_latency".to_owned(),
            value: latency_ms,
            tags,
        };

        let mut fields: Vec<(String, Option<String>)> = Vec::new();
        fields.push(("rpc.method".to_owned(), clone_opt(&method)));
        fields.push(("rpc.code".to_owned(), code_text));
        fields.push(("rpc.message".to_owned(), rpc_message));
        fields.push(("rpc.service".to_owned(), clone_opt(&service)));
        fields.push(("latency".to_owned(), Some(ms_text(latency_ms))));
        proof {
            assert(fields.deep_view() =~= seq![
                ("rpc.method"@, spec_opt_text(method)),
                ("rpc.code"@, spec_code_name(spec_status_code(headers@))),
                ("rpc.message"@, spec_status_message(headers@)),
                ("rpc.service"@, spec_opt_text(service)),
                ("latency"@, Some(spec_ms_text(latency_ms))),
            ]);
        }
        let log = LogEvent {
            level: Level::Debug,
            message: "request processing finished".to_owned(),
            fields,
        };
        (metric, log)
    }
}

/// Observes the end of a stream: a duration histogram and a debug log, with
/// no status classification.
pub struct InstrumentsOnEos;

impl InstrumentsOnEos {
    /// The metric and log events emitted when a stream ends.
    pub fn on_eos(
        &self,
        stream_duration_ms: u64,
        method: Option<String>,
        service: Option<String>,
    ) -> (r: (MetricEvent, LogEvent))
        ensures
            r.0.kind == MetricKind::Histogram,
            r.0.name@ == "rpc_stream_duration"@,
            r.0.value == stream_duration_ms,
            r.0.tags.deep_view() == seq![
                ("rpc.method"@, spec_opt_text(method)),
                ("rpc.service"@, spec_opt_text(service)),
            ],
            r.1.level == Level::Debug,
            r.1.message@ == "stream ended"@,
            r.1.fields.deep_view() == seq![
                ("rpc.method"@, spec_opt_text(method)),
                ("stream_duration"@, Some(spec_ms_text(stream_duration_ms))),
            ],
    {
        let mut tags: Vec<(String, Option<String>)> = Vec::new();
        tags.push(("rpc.method".to_owned(), clone_opt(&method)));
        tags.push(("rpc.service".to_owned(), clone_opt(&service)));
        proof {
            assert(tags.deep_view() =~= seq![
                ("rpc.method"@, spec_opt_text(method)),
                ("rpc.service"@, spec_opt_text(service)),
            ]);
        }
        let metric = MetricEvent {
            kind: MetricKind::Histogram,
            name: "rpc_stream_duration".to_owned(),
            value: stream_duration_ms,
            tags,
        };

        let mut fields: Vec<(String, Option<String>)> = Vec::new();
        fields.push(("rpc.method".to_owned(), method));
        fields.push(("stream_duration".to_owned(), Some(ms_text(stream_duration_ms))));
        proof {
            assert(fields.deep_view() =~= seq![
                (
                    "rpc.method"@,
                    spec_opt_text(fields@[0].1),
                ),
                ("stream_duration"@, Some(spec_ms_text(stream_duration_ms))),
            ]);
        }
        let log = LogEvent { level: Level::Debug, message: "stream ended".to_owned(), fields };
        (metric, log)
    }
}

/// How a failed call was classified: an explicit status code, or a
/// transport- or protocol-level error described by text.
pub enum FailureClass {
    Code(i32),
    Error(String),
}

/// The status code a failure classification yields: the explicit code if
/// present, unknown otherwise.
pub open spec fn spec_failure_code(class: FailureClass) -> int {
    match class {
        FailureClass::Code(c) => c as int,
        FailureClass::Error(_) => 2,
    }
}

/// The codes treated as operator-actionable and logged loudly: unknown,
/// resource_exhausted, unimplemented, internal and unavailable. Every other
/// code is expected or client-caused and logged quietly.
pub open spec fn spec_loud(code: int) -> bool {
    code == 2 || code == 8 || code == 12 || code == 13 || code == 14
}

/// Observes a failure: a failure counter tagged with code, method and
/// service, and a log whose level depends on whether the code is
/// operator-actionable.
pub struct InstrumentsOnFailure;

impl InstrumentsOnFailure {
    /// The metric and log events emitted when a call fails.
    pub fn on_failure(
        &self,
        class: FailureClass,
        latency_ms: u64,
        method: Option<String>,
        service: Option<String>,
    ) -> (r: (MetricEvent, LogEvent))
        ensures
            r.0.kind == MetricKind::Counter,
            r.0.name@ == "rpc_failure"@,
            r.0.value == 1,
            r.0.tags.deep_view() == seq![
                ("rpc.code"@, spec_code_name(spec_failure_code(class))),
                ("rpc.method"@, spec_opt_text(method)),
                ("rpc.service"@, spec_opt_text(service)),
            ],
            r.1.level == if spec_loud(spec_failure_code(class)) {
                Level::Error
            } else {
                Level::Debug
            },
            r.1.message@ == "request failed"@,
            r.1.fields.deep_view() == seq![
                ("rpc.code"@, spec_code_name(spec_failure_code(class))),
                ("rpc.method"@, spec_opt_text(method)),
                ("rpc.service"@, spec_opt_text(service)),
                ("latency"@, Some(spec_ms_text(latency_ms))),
            ],
    {
        let failure_code: i32 = match &class {
            FailureClass::Code(c) => *c,
            FailureClass::Error(_) => 2,
        };
        let rpc_code = code_name(failure_code);
        let code_text: Option<String> = match rpc_code {
            Some(n) => Some(n.to_owned()),
            None => None,
        };

        let mut tags: Vec<(String, Option<String>)> = Vec::new();
        tags.push(("rpc.code".to_owned(), clone_opt(&code_text)));
        tags.push(("rpc.method".to_owned(), clone_opt(&method)));
        tags.push(("rpc.service".to_owned(), clone_opt(&service)));
        proof {
            assert(tags.deep_view() =~= seq![
                ("rpc.code"@, spec_code_name(spec_failure_code(class))),
                ("rpc.method"@, spec_opt_text(method)),
                ("rpc.service"@, spec_opt_text(service)),
            ]);
        }
        let metric = MetricEvent {
            kind: MetricKind::Counter,
            name: "rpc_failure".to_owned(),
            value: 1,
            tags,
        };

        let level = if failure_code == 2 || failure_code == 8 || failure_code == 12
            || failure_code == 13 || failure_code == 14 {
            Level::Error
        } else {
            Level::Debug
        };

        let mut fields: Vec<(String, Option<String>)> = Vec::new();
        fields.push(("rpc.code".to_owned(), code_text));
        fields.push(("rpc.method".to_owned(), method));
        fields.push(("rpc.service".to_owned(), service));
        fields.push(("latency".to_owned(), Some(ms_text(latency_ms))));
        proof {
            assert(fields.deep_view() =~= seq![
                ("rpc.code"@, spec_code_name(spec_failure_code(class))),
                ("rpc.method"@, spec_opt_text(fields@[1].1)),
                ("rpc.service"@, spec_opt_text(fields@[2].1)),
                ("latency"@, Some(spec_ms_text(latency_ms))),
            ]);
        }
        let log = LogEvent { level, message: "request failed".to_owned(), fields };
        (metric, log)
    }
}

} // verus!
