//! The console log renderer: formats each log record of a batch into one
//! human-readable line and appends it to its sink, skipping records it
//! cannot render; after shutdown every export fails.

use vstd::prelude::*;

use crate::decimal;
use crate::severity::{spec_severity_label, severity_to_str, Severity};
use crate::text;

verus! {

/// A log record's attribute value, as the renderer reads it: the scalar
/// kinds are rendered, anything else is omitted. A floating-point value
/// arrives as its decimal rendering, which is all the renderer needs of it.
pub enum AnyValue {
    Int(i64),
    Double(String),
    Text(String),
    Bool(bool),
    Other,
}

/// One log record: observed and emit timestamps in nanoseconds since the
/// epoch, severity, body, and attributes.
pub struct LogRecord {
    pub timestamp: Option<u64>,
    pub observed_timestamp: Option<u64>,
    pub severity_number: Option<Severity>,
    pub body: Option<AnyValue>,
    pub attributes: Option<Vec<(String, AnyValue)>>,
}

/// What chrono renders a UTC timestamp as: the RFC 3339 form with nine
/// fraction digits and a numeric offset, a fixed function of the timestamp.
pub uninterp spec fn rfc3339_nanos_of(nanos: u64) -> Seq<char>;

/// Relies on chrono's `DateTime::<Utc>::from_timestamp_nanos` and
/// `to_rfc3339_opts(SecondsFormat::Nanos, false)`: a fixed UTC rendering
/// determined by the timestamp alone, independent of clock or time zone.
#[verifier::external_body]
fn rfc3339_nanos(nanos: u64) -> (r: String)
    ensures
        r@ == rfc3339_nanos_of(nanos),
{
    chrono::DateTime::<chrono::Utc>::from_timestamp_nanos(nanos as i64).to_rfc3339_opts(
        chrono::SecondsFormat::Nanos,
        false,
    )
}

/// The display timestamp: observed time preferred, emit time the fallback.
pub open spec fn spec_display_timestamp(r: LogRecord) -> Option<u64> {
    match r.observed_timestamp {
        Some(t) => Some(t),
        None => r.timestamp,
    }
}

/// The text a scalar attribute value renders as; a non-scalar renders as
/// nothing and the attribute is omitted.
pub open spec fn spec_value_text(v: AnyValue) -> Option<Seq<char>> {
    match v {
        AnyValue::Int(i) => Some(decimal::spec_dec_signed(i as int)),
        AnyValue::Double(d) => Some(d@),
        AnyValue::Text(t) => Some(t@),
        AnyValue::Bool(b) => Some(
            if b {
                "true"@
            } else {
                "false"@
            },
        ),
        AnyValue::Other => None,
    }
}

/// The "key=value" texts of the scalar attributes, in order.
pub open spec fn spec_attr_texts(attrs: Seq<(String, AnyValue)>) -> Seq<Seq<char>>
    decreases attrs.len(),
{
    if attrs.len() == 0 {
        Seq::empty()
    } else {
        let prev = spec_attr_texts(attrs.drop_last());
        match spec_value_text(attrs.last().1) {
            Some(t) => prev.push(attrs.last().0@ + "="@ + t),
            None => prev,
        }
    }
}

/// The parts joined with single spaces.
pub open spec fn spec_join_spaces(parts: Seq<Seq<char>>) -> Seq<char>
    decreases parts.len(),
{
    if parts.len() == 0 {
        Seq::empty()
    } else if parts.len() == 1 {
        parts[0]
    } else {
        spec_join_spaces(parts.drop_last()) + " "@ + parts.last()
    }
}

/// The attribute sequence a record carries, absent meaning none.
pub open spec fn spec_record_attrs(r: LogRecord) -> Seq<(String, AnyValue)> {
    match r.attributes {
        Some(a) => a@,
        None => Seq::empty(),
    }
}

/// The rendered line for one record: timestamp, the severity label
/// right-aligned to seven characters, the body, and the scalar attributes
/// after a comma — or nothing when the record has no usable timestamp or a
/// non-string body.
pub open spec fn spec_render_line(r: LogRecord) -> Option<Seq<char>> {
    match spec_display_timestamp(r) {
        None => None,
        Some(ts) => match r.body {
            Some(AnyValue::Text(b)) => {
                let head = rfc3339_nanos_of(ts) + " "@ + text::spec_pad_left(
                    spec_severity_label(r.severity_number),
                    7,
                ) + " "@ + b@;
                let attrs = spec_attr_texts(spec_record_attrs(r));
                if attrs.len() == 0 {
                    Some(head)
                } else {
                    Some(head + ", "@ + spec_join_spaces(attrs))
                }
            },
            _ => None,
        },
    }
}

/// What a batch appends to the sink: each record's line, newline-terminated,
/// in batch order; skipped records append nothing.
pub open spec fn spec_rendered_batch(batch: Seq<LogRecord>) -> Seq<char>
    decreases batch.len(),
{
    if batch.len() == 0 {
        Seq::empty()
    } else {
        spec_rendered_batch(batch.drop_last()) + match spec_render_line(batch.last()) {
            Some(l) => l + "\n"@,
            None => Seq::empty(),
        }
    }
}

/// The text a scalar attribute value renders as.
fn value_text(v: &AnyValue) -> (r: Option<String>)
    ensures
        match r {
            Some(t) => spec_value_text(*v) == Some(t@),
            None => spec_value_text(*v) is None,
        },
{
    match v {
        AnyValue::Int(i) => Some(decimal::i64_to_dec(*i)),
        AnyValue::Double(d) => Some(d.clone()),
        AnyValue::Text(t) => Some(t.clone()),
        AnyValue::Bool(b) => Some(
            if *b {
                "true".to_owned()
            } else {
                "false".to_owned()
            },
        ),
        AnyValue::Other => None,
    }
}

/// Joins the scalar attributes into one "k=v k=v" text, or nothing when
/// no attribute is scalar.
fn joined_attr_text(attrs: &Vec<(String, AnyValue)>) -> (r: Option<String>)
    ensures
        match r {
            Some(s) => spec_attr_texts(attrs@).len() > 0 && s@ == spec_join_spaces(
                spec_attr_texts(attrs@),
            ),
            None => spec_attr_texts(attrs@).len() == 0,
        },
{
    let mut joined = String::new();
    let mut any = false;
    let mut i: usize = 0;
    while i < attrs.len()
        invariant
            i <= attrs@.len(),
            !any ==> spec_attr_texts(attrs@.subrange(0, i as int)).len() == 0 && joined@
                =~= Seq::<char>::empty(),
            any ==> spec_attr_texts(attrs@.subrange(0, i as int)).len() > 0 && joined@
                =~= spec_join_spaces(spec_attr_texts(attrs@.subrange(0, i as int))),
        decreases attrs@.len() - i,
    {
        proof {
            assert(attrs@.subrange(0, (i + 1) as int).drop_last() =~= attrs@.subrange(
                0,
                i as int,
            ));
        }
        match value_text(&attrs[i].1) {
            None => {},
            Some(t) => {
                if any {
                    joined.append(" ");
                }
                joined.append(attrs[i].0.as_str());
                joined.append("=");
                joined.append(t.as_str());
                proof {
                    reveal_strlit(" ");
                    reveal_strlit("=");
                    let parts = spec_attr_texts(attrs@.subrange(0, (i + 1) as int));
                    let prev = spec_attr_texts(attrs@.subrange(0, i as int));
                    let item = attrs@[i as int].0@ + "="@ + t@;
                    assert(parts =~= prev.push(item));
                    assert(parts.drop_last() =~= prev);
                    assert(parts.last() == item);
                    if prev.len() == 0 {
                        assert(spec_join_spaces(parts) == item);
                    } else {
                        assert(spec_join_spaces(parts) == spec_join_spaces(prev) + " "@ + item);
                    }
                    assert(joined@ =~= spec_join_spaces(parts));
                }
                any = true;
            },
        }
        i += 1;
    }
    proof {
        assert(attrs@.subrange(0, attrs@.len() as int) =~= attrs@);
    }
    if any {
        Some(joined)
    } else {
        None
    }
}

/// Renders one record into its line, or nothing when the record has no
/// usable timestamp or a non-string body.
pub fn render_line(r: &LogRecord) -> (out: Option<String>)
    ensures
        match out {
            Some(l) => spec_render_line(*r) == Some(l@),
            None => spec_render_line(*r) is None,
        },
{
    let parts = match render_parts(r) {
        Some(parts) => parts,
        None => {
            return None;
        },
    };
    let mut line = parts.timestamp;
    line.append(" ");
    line.append(parts.severity.as_str());
    line.append(" ");
    line.append(parts.body.as_str());
    proof {
        reveal_strlit(" ");
    }
    match parts.attrs {
        None => {
            proof {
                assert(line@ =~= spec_render_line(*r).unwrap());
            }
            Some(line)
        },
        Some(attrs) => {
            line.append(", ");
            line.append(attrs.as_str());
            proof {
                reveal_strlit(", ");
                assert(line@ =~= spec_render_line(*r).unwrap());
            }
            Some(line)
        },
    }
}

/// The pieces of one rendered line, for a sink that displays the pieces
/// differently: the timestamp text, the severity label padded to seven
/// characters with its color class, the body, and the joined attribute
/// texts when there are any.
pub struct RenderedParts {
    pub timestamp: String,
    pub severity: String,
    pub color: crate::severity::Color,
    pub body: String,
    pub attrs: Option<String>,
}

/// Renders one record into its pieces; the whole line is the pieces joined
/// with spaces, with a comma before the attributes.
pub fn render_parts(r: &LogRecord) -> (out: Option<RenderedParts>)
    ensures
        match out {
            Some(p) => {
                &&& spec_display_timestamp(*r) matches Some(ts) && p.timestamp@
                    == rfc3339_nanos_of(ts)
                &&& p.severity@ == text::spec_pad_left(
                    spec_severity_label(r.severity_number),
                    7,
                )
                &&& p.color == crate::severity::spec_severity_color(r.severity_number)
                &&& r.body matches Some(b) && (b matches AnyValue::Text(t) && p.body@ == t@)
                &&& match p.attrs {
                    Some(a) => spec_attr_texts(spec_record_attrs(*r)).len() > 0 && a@
                        == spec_join_spaces(spec_attr_texts(spec_record_attrs(*r))),
                    None => spec_attr_texts(spec_record_attrs(*r)).len() == 0,
                }
            },
            None => spec_render_line(*r) is None,
        },
{
    let ts: u64 = match &r.observed_timestamp {
        Some(t) => *t,
        None => match &r.timestamp {
            Some(t) => *t,
            None => {
                return None;
            },
        },
    };
    let body: String = match &r.body {
        Some(AnyValue::Text(b)) => b.clone(),
        _ => {
            return None;
        },
    };

    let (label, color) = severity_to_str(r.severity_number);
    let severity = text::pad_left(label, 7);
    let timestamp = rfc3339_nanos(ts);

    let attrs = match &r.attributes {
        None => {
            proof {
                assert(spec_attr_texts(spec_record_attrs(*r)).len() == 0);
            }
            None
        },
        Some(attrs) => joined_attr_text(attrs),
    };

    Some(RenderedParts { timestamp, severity, color, body, attrs })
}

/// The error an export after shutdown fails with.
pub struct ExporterClosed;

impl ExporterClosed {
    /// The error's message.
    pub fn message(&self) -> (r: &'static str)
        ensures
            r@ == "exporter is shut down"@,
    {
        "exporter is shut down"
    }
}

/// The console exporter: renders each record of a batch into one line and
/// appends it to the owned sink. Shutdown releases the sink; exports after
/// that fail.
pub struct LogsExporter {
    writer: Option<String>,
}

impl LogsExporter {
    /// The sink's contents, or nothing once the exporter was shut down.
    pub closed spec fn view(&self) -> Option<Seq<char>> {
        match self.writer {
            Some(w) => Some(w@),
            None => None,
        }
    }

    /// A fresh exporter with an empty, open sink.
    pub fn new() -> (r: LogsExporter)
        ensures
            r@ == Some(Seq::<char>::empty()),
    {
        LogsExporter { writer: Some(String::new()) }
    }

    /// Renders the batch in order onto the sink: one newline-terminated line
    /// per renderable record, skipped records appending nothing. After
    /// shutdown the batch is dropped and the export fails.
    pub fn export(&mut self, batch: Vec<LogRecord>) -> (r: Result<(), ExporterClosed>)
        ensures
            match old(self)@ {
                None => r is Err && final(self)@ is None,
                Some(contents) => r is Ok && final(self)@ == Some(
                    contents + spec_rendered_batch(batch@),
                ),
            },
    {
        let mut taken: Option<String> = None;
        core::mem::swap(&mut self.writer, &mut taken);
        let mut w = match taken {
            None => {
                return Err(ExporterClosed);
            },
            Some(w) => w,
        };
        let ghost start = w@;
        let mut i: usize = 0;
        while i < batch.len()
            invariant
                i <= batch@.len(),
                w@ =~= start + spec_rendered_batch(batch@.subrange(0, i as int)),
            decreases batch@.len() - i,
        {
            proof {
                assert(batch@.subrange(0, (i + 1) as int).drop_last() =~= batch@.subrange(
                    0,
                    i as int,
                ));
            }
            match render_line(&batch[i]) {
                Some(line) => {
                    w.append(line.as_str());
                    w.append("\n");
                    proof {
                        reveal_strlit("\n");
                        assert(w@ =~= start + spec_rendered_batch(
                            batch@.subrange(0, (i + 1) as int),
                        ));
                    }
                },
                None => {
                    proof {
                        assert(w@ =~= start + spec_rendered_batch(
                            batch@.subrange(0, (i + 1) as int),
                        ));
                    }
                },
            }
            i += 1;
        }
        proof {
            assert(batch@.subrange(0, batch@.len() as int) =~= batch@);
        }
        self.writer = Some(w);
        Ok(())
    }

    /// Releases the sink; every later export fails.
    pub fn shutdown(&mut self)
        ensures
            final(self)@ is None,
    {
        self.writer = None;
    }

    /// Hands the sink's contents out and leaves the sink empty and open;
    /// after shutdown there is nothing to hand out.
    pub fn drain(&mut self) -> (r: Option<String>)
        ensures
            match old(self)@ {
                None => r is None && final(self)@ is None,
                Some(contents) => (r matches Some(s) && s@ == contents) && final(self)@ == Some(
                    Seq::<char>::empty(),
                ),
            },
    {
        let mut taken: Option<String> = None;
        core::mem::swap(&mut self.writer, &mut taken);
        match taken {
            None => None,
            Some(w) => {
                self.writer = Some(String::new());
                Some(w)
            },
        }
    }
}

impl Default for LogsExporter {
    /// A fresh exporter with an empty, open sink.
    fn default() -> (r: LogsExporter)
        ensures
            r@ == Some(Seq::<char>::empty()),
    {
        LogsExporter::new()
    }
}

} // verus!
