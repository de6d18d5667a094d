//! The span metadata side table and the layer that fills it: method and
//! service strings extracted at span-creation time, keyed by span id,
//! removed when the span ends.

use std::collections::HashMap;

use vstd::prelude::*;

verus! {

broadcast use vstd::std_specs::hash::group_hash_axioms;

/// The name of the field the method is recorded under.
pub open spec fn spec_method_field() -> Seq<char> {
    "rpc.method"@
}

/// The name of the field the service is recorded under.
pub open spec fn spec_service_field() -> Seq<char> {
    "rpc.service"@
}

/// An RPC method name captured for a span.
#[derive(Debug)]
pub struct RPCMethod(pub String);

/// An RPC service name captured for a span.
#[derive(Debug)]
pub struct RPCService(pub String);

/// What the store holds for one span: the method and service recorded at
/// its creation, either of which the span may have omitted.
pub struct SpanMeta {
    pub method: Option<RPCMethod>,
    pub service: Option<RPCService>,
}

/// The per-span side table: a non-owning association from span id to the
/// metadata captured at creation. Entries are written when a span is opened
/// and removed when it ends; a lookup after removal finds nothing.
pub struct SpanStore {
    entries: HashMap<u64, SpanMeta>,
}

impl SpanStore {
    /// What the store associates with each live span id.
    pub closed spec fn view(&self) -> Map<u64, SpanMeta> {
        self.entries@
    }

    /// An empty store: no span has metadata.
    pub fn new() -> (r: SpanStore)
        ensures
            r@ == Map::<u64, SpanMeta>::empty(),
    {
        SpanStore { entries: HashMap::new() }
    }

    /// Records a span's metadata under its id; an id already present is
    /// overwritten (span ids are unique among live spans, so this only
    /// happens after the earlier span ended uncleanly).
    pub fn insert(&mut self, id: u64, meta: SpanMeta)
        ensures
            final(self)@ == old(self)@.insert(id, meta),
    {
        self.entries.insert(id, meta);
    }

    /// The metadata for a span id, if that span is live and had any
    /// recorded.
    pub fn get(&self, id: u64) -> (r: Option<&SpanMeta>)
        ensures
            match r {
                Some(m) => self@.contains_key(id) && *m == self@[id],
                None => !self@.contains_key(id),
            },
    {
        self.entries.get(&id)
    }

    /// The removal hook tied to span completion: after it, lookups for the
    /// id find nothing.
    pub fn remove(&mut self, id: u64)
        ensures
            final(self)@ == old(self)@.remove(id),
            !final(self)@.contains_key(id),
    {
        self.entries.remove(&id);
    }
}

/// Collects the method and service strings out of a span's recorded fields;
/// every other field is ignored.
#[derive(Default)]
pub struct RPCVisitor {
    pub rpc_method: Option<String>,
    pub rpc_service: Option<String>,
}

/// The visitor state after one string field is recorded.
pub open spec fn spec_record_str(
    v: RPCVisitor,
    field: Seq<char>,
    value: Seq<char>,
) -> (Option<Seq<char>>, Option<Seq<char>>) {
    let m = match v.rpc_method {
        Some(s) => Some(s@),
        None => None,
    };
    let s = match v.rpc_service {
        Some(s) => Some(s@),
        None => None,
    };
    if field == spec_method_field() {
        (Some(value), s)
    } else if field == spec_service_field() {
        (m, Some(value))
    } else {
        (m, s)
    }
}

/// The visitor state after a whole field list is visited in order.
pub open spec fn spec_visit(fields: Seq<(String, String)>) -> (Option<Seq<char>>, Option<
    Seq<char>,
>)
    decreases fields.len(),
{
    if fields.len() == 0 {
        (None, None)
    } else {
        let prev = spec_visit(fields.drop_last());
        let last = fields.last();
        if last.0@ == spec_method_field() {
            (Some(last.1@), prev.1)
        } else if last.0@ == spec_service_field() {
            (prev.0, Some(last.1@))
        } else {
            prev
        }
    }
}

pub open spec fn spec_visitor_view(v: RPCVisitor) -> (Option<Seq<char>>, Option<Seq<char>>) {
    (
        match v.rpc_method {
            Some(s) => Some(s@),
            None => None,
        },
        match v.rpc_service {
            Some(s) => Some(s@),
            None => None,
        },
    )
}

impl RPCVisitor {
    /// A visitor that has seen nothing.
    pub fn new() -> (r: RPCVisitor)
        ensures
            r.rpc_method is None,
            r.rpc_service is None,
    {
        RPCVisitor { rpc_method: None, rpc_service: None }
    }

    /// Keeps a string field's value when the field is the method or the
    /// service; any other field changes nothing.
    pub fn record_str(&mut self, field: &str, value: &str)
        ensures
            spec_visitor_view(*final(self)) == spec_record_str(*old(self), field@, value@),
    {
        if crate::text::str_eq(field, "rpc.method") {
            self.rpc_method = Some(value.to_owned());
        } else if crate::text::str_eq(field, "rpc.service") {
            self.rpc_service = Some(value.to_owned());
        }
    }
}

/// The layer that captures RPC metadata: on each new span it visits the
/// span's fields and writes what it found into the store.
#[derive(Default)]
pub struct RPCLayer;

impl RPCLayer {
    /// Visits a new span's fields in order and records the method and
    /// service found, if any, into the store under the span's id — before
    /// the span is visible to anything downstream.
    pub fn on_new_span(&self, store: &mut SpanStore, id: u64, fields: &Vec<(String, String)>)
        ensures
            final(store)@.contains_key(id),
            ({
                let meta = final(store)@[id];
                let visited = spec_visit(fields@);
                &&& spec_meta_view(meta) == visited
                &&& final(store)@ == old(store)@.insert(id, meta)
            }),
    {
        let mut visitor = RPCVisitor::new();
        let mut i: usize = 0;
        while i < fields.len()
            invariant
                i <= fields@.len(),
                spec_visitor_view(visitor) == spec_visit(fields@.subrange(0, i as int)),
            decreases fields@.len() - i,
        {
            proof {
                assert(fields@.subrange(0, (i + 1) as int).drop_last() =~= fields@.subrange(
                    0,
                    i as int,
                ));
            }
            visitor.record_str(fields[i].0.as_str(), fields[i].1.as_str());
            i += 1;
        }
        proof {
            assert(fields@.subrange(0, fields@.len() as int) =~= fields@);
        }
        let RPCVisitor { rpc_method, rpc_service } = visitor;
        let meta = SpanMeta {
            method: match rpc_method {
                Some(m) => Some(RPCMethod(m)),
                None => None,
            },
            service: match rpc_service {
                Some(s) => Some(RPCService(s)),
                None => None,
            },
        };
        store.insert(id, meta);
    }
}

/// The method and service a metadata entry holds, as text.
pub open spec fn spec_meta_view(meta: SpanMeta) -> (Option<Seq<char>>, Option<Seq<char>>) {
    (
        match meta.method {
            Some(m) => Some(m.0@),
            None => None,
        },
        match meta.service {
            Some(s) => Some(s.0@),
            None => None,
        },
    )
}

} // verus!
