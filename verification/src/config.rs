//! Typed configuration with per-field defaults, populated from a key/value
//! source (the caller reads the environment and hands the pairs in).

use vstd::prelude::*;

use crate::decimal;
use crate::text;
use crate::Error;

verus! {

/// One part per million: the granularity the sampling ratio is held at.
pub const RATIO_ONE: u32 = 1000000;

/// The per-signal exporter selections and filters, and the trace sampling
/// ratio in millionths of one.
#[derive(Debug)]
pub struct Config {
    pub logs_exporter: String,
    pub logs_filter: String,
    pub metrics_exporter: String,
    pub metrics_filter: String,
    pub traces_exporter: String,
    pub traces_filter: String,
    pub traces_ratio_sample: u32,
}

/// The value of the first pair carrying the key, if any.
pub open spec fn spec_lookup_from(pairs: Seq<(String, String)>, key: Seq<char>, i: int) -> Option<
    Seq<char>,
>
    decreases pairs.len() - i,
{
    if i < 0 || i >= pairs.len() {
        None
    } else if pairs[i].0@ == key {
        Some(pairs[i].1@)
    } else {
        spec_lookup_from(pairs, key, i + 1)
    }
}

pub open spec fn spec_lookup(pairs: Seq<(String, String)>, key: Seq<char>) -> Option<Seq<char>> {
    spec_lookup_from(pairs, key, 0)
}

/// The sampling ratio a decimal string denotes, in millionths: digits with an
/// optional fraction of at most six digits, no more than one. Anything else,
/// and anything above one, denotes no ratio.
pub open spec fn spec_ratio_ppm(s: Seq<char>) -> Option<u32> {
    match text::spec_find(s, '.') {
        None => if s.len() > 0 && decimal::spec_all_digits(s) && decimal::spec_digits_val(s)
            * 1000000 <= 1000000 {
            Some((decimal::spec_digits_val(s) * 1000000) as u32)
        } else {
            None
        },
        Some(d) => {
            let ip = s.subrange(0, d);
            let fp = s.subrange(d + 1, s.len() as int);
            if ip.len() > 0 && fp.len() > 0 && fp.len() <= 6 && decimal::spec_all_digits(ip)
                && decimal::spec_all_digits(fp) {
                let v = decimal::spec_digits_val(ip) * 1000000 + decimal::spec_digits_val(fp)
                    * decimal::spec_pow10((6 - fp.len()) as nat);
                if v <= 1000000 {
                    Some(v as u32)
                } else {
                    None
                }
            } else {
                None
            }
        },
    }
}

/// Parses a sampling ratio in [0, 1] with at most six fraction digits into
/// millionths.
pub fn parse_ratio(s: &str) -> (r: Option<u32>)
    ensures
        r == spec_ratio_ppm(s@),
{
    let len = s.unicode_len();
    match text::find_char(s, '.') {
        None => {
            match decimal::digits_val_capped(s, 2) {
                None => None,
                Some(v) => {
                    if v >= 2 {
                        proof {
                            assert(decimal::spec_digits_val(s@) * 1000000 > 1000000) by (
                            nonlinear_arith)
                                requires
                                    decimal::spec_digits_val(s@) >= 2,
                            ;
                        }
                        None
                    } else {
                        Some((v as u32) * RATIO_ONE)
                    }
                },
            }
        },
        Some(d) => {
            proof {
                text::lemma_find_position(s@, '.');
            }
            let ip = s.substring_char(0, d);
            let fp = s.substring_char(d + 1, len);
            let fp_len = fp.unicode_len();
            if fp_len == 0 || fp_len > 6 {
                return None;
            }
            let ipv = match decimal::digits_val_capped(ip, 2) {
                None => {
                    return None;
                },
                Some(v) => v,
            };
            let fpv = match decimal::digits_val_capped(fp, 1000000) {
                None => {
                    return None;
                },
                Some(v) => v,
            };
            proof {
                decimal::lemma_scaled_fraction_bound(fp@);
            }
            let scaled = fpv * decimal::pow10_u64(6 - fp_len);
            if ipv >= 2 {
                proof {
                    assert(decimal::spec_digits_val(ip@) * 1000000 >= 2000000) by (nonlinear_arith)
                        requires
                            decimal::spec_digits_val(ip@) >= 2,
                    ;
                }
                return None;
            }
            let total = ipv * 1000000 + scaled;
            if total > 1000000 {
                None
            } else {
                Some(total as u32)
            }
        },
    }
}

/// The textual default for every field but the ratio, whose default is zero.
pub open spec fn spec_field_or(pairs: Seq<(String, String)>, key: Seq<char>, dflt: Seq<char>)
    -> Seq<char> {
    match spec_lookup(pairs, key) {
        Some(v) => v,
        None => dflt,
    }
}

impl Config {
    /// Populates the configuration from key/value pairs, field by field, with
    /// the fixed defaults where a key is absent. A present but malformed
    /// sampling ratio is a Configuration error naming the value.
    pub fn from_pairs(pairs: &Vec<(String, String)>) -> (r: Result<Config, Error>)
        ensures
            match r {
                Ok(c) => {
                    &&& c.logs_exporter@ == spec_field_or(pairs@, "logs_exporter"@, "console"@)
                    &&& c.logs_filter@ == spec_field_or(pairs@, "logs_filter"@, "info"@)
                    &&& c.metrics_exporter@ == spec_field_or(pairs@, "metrics_exporter"@, "noop"@)
                    &&& c.metrics_filter@ == spec_field_or(pairs@, "metrics_filter"@, "info"@)
                    &&& c.traces_exporter@ == spec_field_or(pairs@, "traces_exporter"@, "noop"@)
                    &&& c.traces_filter@ == spec_field_or(pairs@, "traces_filter"@, "info"@)
                    &&& match spec_lookup(pairs@, "traces_ratio_sample"@) {
                        None => c.traces_ratio_sample == 0,
                        Some(s) => spec_ratio_ppm(s) == Some(c.traces_ratio_sample),
                    }
                },
                Err(e) => {
                    &&& e matches Error::Configuration(_)
                    &&& match spec_lookup(pairs@, "traces_ratio_sample"@) {
                        None => false,
                        Some(s) => spec_ratio_ppm(s) is None && e.spec_message()
                            == "invalid traces_ratio_sample: "@ + s,
                    }
                },
            },
    {
        let traces_ratio_sample: u32 = match lookup(pairs, "traces_ratio_sample") {
            None => 0,
            Some(raw) => {
                match parse_ratio(raw.as_str()) {
                    Some(v) => v,
                    None => {
                        let mut m = "invalid traces_ratio_sample: ".to_owned();
                        m.append(raw.as_str());
                        proof {
                            reveal_strlit("invalid traces_ratio_sample: ");
                            assert(m@ =~= "invalid traces_ratio_sample: "@ + raw@);
                        }
                        return Err(Error::Configuration(m));
                    },
                }
            },
        };
        Ok(
            Config {
                logs_exporter: field_or(pairs, "logs_exporter", "console"),
                logs_filter: field_or(pairs, "logs_filter", "info"),
                metrics_exporter: field_or(pairs, "metrics_exporter", "noop"),
                metrics_filter: field_or(pairs, "metrics_filter", "info"),
                traces_exporter: field_or(pairs, "traces_exporter", "noop"),
                traces_filter: field_or(pairs, "traces_filter", "info"),
                traces_ratio_sample,
            },
        )
    }
}

/// Finds the first pair carrying the key.
pub(crate) fn lookup<'a>(pairs: &'a Vec<(String, String)>, key: &str) -> (r: Option<&'a String>)
    ensures
        match r {
            Some(v) => spec_lookup(pairs@, key@) == Some(v@),
            None => spec_lookup(pairs@, key@) is None,
        },
{
    let mut i: usize = 0;
    while i < pairs.len()
        invariant
            i <= pairs@.len(),
            spec_lookup(pairs@, key@) == spec_lookup_from(pairs@, key@, i as int),
        decreases pairs@.len() - i,
    {
        if text::str_eq(pairs[i].0.as_str(), key) {
            return Some(&pairs[i].1);
        }
        i += 1;
    }
    None
}

/// The pair's value if the key is present, the default otherwise.
fn field_or(pairs: &Vec<(String, String)>, key: &str, dflt: &str) -> (r: String)
    ensures
        r@ == spec_field_or(pairs@, key@, dflt@),
{
    match lookup(pairs, key) {
        Some(v) => v.clone(),
        None => dflt.to_owned(),
    }
}

} // verus!
