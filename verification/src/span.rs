//! Reads a span's captured metadata back out of the store, from anywhere
//! holding the span's id.

use vstd::prelude::*;

use crate::rpc::{spec_meta_view, SpanMeta, SpanStore};

verus! {

/// The method recorded for a span, or nothing once the span has ended or
/// never recorded one.
pub fn method_from_span(store: &SpanStore, id: u64) -> (r: Option<String>)
    ensures
        match r {
            Some(m) => store@.contains_key(id) && spec_meta_view(store@[id]).0 == Some(m@),
            None => !store@.contains_key(id) || spec_meta_view(store@[id]).0 is None,
        },
{
    match store.get(id) {
        Some(meta) => match &meta.method {
            Some(m) => Some(m.0.clone()),
            None => None,
        },
        None => None,
    }
}

/// The service recorded for a span, or nothing once the span has ended or
/// never recorded one.
pub fn service_from_span(store: &SpanStore, id: u64) -> (r: Option<String>)
    ensures
        match r {
            Some(s) => store@.contains_key(id) && spec_meta_view(store@[id]).1 == Some(s@),
            None => !store@.contains_key(id) || spec_meta_view(store@[id]).1 is None,
        },
{
    match store.get(id) {
        Some(meta) => match &meta.service {
            Some(s) => Some(s.0.clone()),
            None => None,
        },
        None => None,
    }
}

/// Once a span has ended and its entry was removed, lookups for its id find
/// nothing — never stale data: removal takes the id out of the store's
/// domain, whatever was recorded for it before.
pub proof fn lemma_ended_span_lookup_empty(before: Map<u64, SpanMeta>, id: u64)
    ensures
        !before.remove(id).contains_key(id),
{
}

} // verus!
