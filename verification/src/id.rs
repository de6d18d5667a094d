//! Random identifiers: a prefix, an underscore, and a run of random
//! alphanumeric characters.

use vstd::prelude::*;

verus! {

/// True for the sixty-two ASCII letters and digits the generator draws
/// from.
pub open spec fn spec_is_alphanumeric(c: char) -> bool {
    ('A' <= c && c <= 'Z') || ('a' <= c && c <= 'z') || ('0' <= c && c <= '9')
}

/// Relies on rand's `Alphanumeric` distribution: every sample is one of the
/// ASCII letters and digits, whatever the generator returns.
#[verifier::external_body]
fn sample_alphanumeric() -> (r: String)
    ensures
        r@.len() == 1,
        spec_is_alphanumeric(r@[0]),
{
    let sampled: u8 = rand::Rng::sample(&mut rand::thread_rng(), rand::distributions::Alphanumeric);
    (sampled as char).to_string()
}

/// A fresh identifier: the prefix, an underscore, and `length` random
/// alphanumeric characters.
pub fn new(prefix: &str, length: usize) -> (r: String)
    requires
        prefix@.len() + 1 + length <= usize::MAX,
    ensures
        r@.len() == prefix@.len() + 1 + length,
        r@.subrange(0, prefix@.len() as int) == prefix@,
        r@[prefix@.len() as int] == '_',
        forall|i: int|
            prefix@.len() + 1 <= i < r@.len() ==> spec_is_alphanumeric(#[trigger] r@[i]),
{
    let mut r = prefix.to_owned();
    r.append("_");
    proof {
        reveal_strlit("_");
    }
    let mut i: usize = 0;
    while i < length
        invariant
            i <= length,
            r@.len() == prefix@.len() + 1 + i,
            r@.subrange(0, prefix@.len() as int) =~= prefix@,
            r@[prefix@.len() as int] == '_',
            forall|j: int|
                prefix@.len() + 1 <= j < r@.len() ==> spec_is_alphanumeric(#[trigger] r@[j]),
            prefix@.len() + 1 + length <= usize::MAX,
        decreases length - i,
    {
        let c = sample_alphanumeric();
        r.append(c.as_str());
        proof {
            assert(r@.subrange(0, prefix@.len() as int) =~= prefix@);
        }
        i += 1;
    }
    r
}

} // verus!
