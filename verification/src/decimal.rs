//! Decimal text for the integers that rendered lines and metric summaries carry.

use vstd::prelude::*;

verus! {

/// The digit character for a value below ten.
pub open spec fn spec_digit(d: int) -> char {
    if d == 0 {
        '0'
    } else if d == 1 {
        '1'
    } else if d == 2 {
        '2'
    } else if d == 3 {
        '3'
    } else if d == 4 {
        '4'
    } else if d == 5 {
        '5'
    } else if d == 6 {
        '6'
    } else if d == 7 {
        '7'
    } else if d == 8 {
        '8'
    } else {
        '9'
    }
}

/// The decimal rendering of a non-negative integer, most significant digit
/// first, with no leading zero except for zero itself.
pub open spec fn spec_dec(n: nat) -> Seq<char>
    decreases n,
{
    if n < 10 {
        seq![spec_digit(n as int)]
    } else {
        spec_dec(n / 10) + seq![spec_digit((n % 10) as int)]
    }
}

/// The decimal rendering of a signed integer: a leading minus sign for
/// negative values, then the magnitude's digits.
pub open spec fn spec_dec_signed(n: int) -> Seq<char> {
    if n < 0 {
        seq!['-'] + spec_dec((-n) as nat)
    } else {
        spec_dec(n as nat)
    }
}

/// True for the ten ASCII digits.
pub open spec fn spec_is_digit(c: char) -> bool {
    '0' <= c && c <= '9'
}

/// The numeric value of an ASCII digit.
pub open spec fn spec_digit_val(c: char) -> int {
    c as u8 - 48
}

/// True when every character of the sequence is an ASCII digit.
pub open spec fn spec_all_digits(s: Seq<char>) -> bool {
    forall|i: int| 0 <= i < s.len() ==> spec_is_digit(#[trigger] s[i])
}

/// The value of a digit string read most significant digit first.
pub open spec fn spec_digits_val(s: Seq<char>) -> int
    decreases s.len(),
{
    if s.len() == 0 {
        0
    } else {
        spec_digits_val(s.drop_last()) * 10 + spec_digit_val(s.last())
    }
}

/// Ten to the given power.
pub open spec fn spec_pow10(n: nat) -> int
    decreases n,
{
    if n == 0 {
        1
    } else {
        10 * spec_pow10((n - 1) as nat)
    }
}

/// A digit string's value is non-negative and below ten to its length.
pub proof fn lemma_digits_val_bound(s: Seq<char>)
    requires
        spec_all_digits(s),
    ensures
        0 <= spec_digits_val(s) < spec_pow10(s.len()),
    decreases s.len(),
{
    if s.len() > 0 {
        let p = s.drop_last();
        assert(forall|i: int| 0 <= i < p.len() ==> p[i] == s[i]);
        lemma_digits_val_bound(p);
        assert(spec_digits_val(p) * 10 + spec_digit_val(s.last()) < spec_pow10(s.len())) by (
        nonlinear_arith)
            requires
                0 <= spec_digits_val(p) < spec_pow10(p.len()),
                spec_pow10(s.len()) == 10 * spec_pow10(p.len()),
                0 <= spec_digit_val(s.last()) <= 9,
        ;
    }
}

/// Powers of ten multiply by adding exponents.
pub proof fn lemma_pow10_mul(a: nat, b: nat)
    ensures
        spec_pow10(a) * spec_pow10(b) == spec_pow10(a + b),
    decreases a,
{
    if a > 0 {
        lemma_pow10_mul((a - 1) as nat, b);
        assert(spec_pow10(a) * spec_pow10(b) == 10 * spec_pow10((a + b - 1) as nat)) by (
        nonlinear_arith)
            requires
                spec_pow10(a) == 10 * spec_pow10((a - 1) as nat),
                spec_pow10((a - 1) as nat) * spec_pow10(b) == spec_pow10((a + b - 1) as nat),
        ;
    }
}

/// A fraction of at most six digits, scaled to six places, stays below one
/// million.
pub proof fn lemma_scaled_fraction_bound(fp: Seq<char>)
    requires
        spec_all_digits(fp),
        1 <= fp.len() <= 6,
    ensures
        0 <= spec_digits_val(fp) * spec_pow10((6 - fp.len()) as nat) < 1000000,
        0 <= spec_digits_val(fp) < 1000000,
{
    lemma_digits_val_bound(fp);
    lemma_pow10_mul(fp.len(), (6 - fp.len()) as nat);
    reveal_with_fuel(spec_pow10, 8);
    assert(spec_digits_val(fp) < 1000000) by (nonlinear_arith)
        requires
            0 <= spec_digits_val(fp) < spec_pow10(fp.len()),
            spec_pow10((6 - fp.len()) as nat) >= 1,
            spec_pow10(fp.len()) * spec_pow10((6 - fp.len()) as nat) == 1000000,
    ;
    assert(spec_digits_val(fp) * spec_pow10((6 - fp.len()) as nat) < 1000000) by (nonlinear_arith)
        requires
            0 <= spec_digits_val(fp) < spec_pow10(fp.len()),
            spec_pow10((6 - fp.len()) as nat) >= 1,
            spec_pow10(fp.len()) * spec_pow10((6 - fp.len()) as nat) == 1000000,
    ;
    assert(spec_digits_val(fp) * spec_pow10((6 - fp.len()) as nat) >= 0) by (nonlinear_arith)
        requires
            0 <= spec_digits_val(fp),
            spec_pow10((6 - fp.len()) as nat) >= 1,
    ;
}

/// Reads a digit string, clamping the value at `cap`: the result is `None`
/// when the string is empty or holds a non-digit, the exact value when it is
/// below `cap`, and `cap` when the value reaches it.
pub fn digits_val_capped(s: &str, cap: u64) -> (r: Option<u64>)
    requires
        cap <= 0xffff_ffff,
    ensures
        match r {
            None => !(s@.len() > 0 && spec_all_digits(s@)),
            Some(v) => s@.len() > 0 && spec_all_digits(s@) && if spec_digits_val(s@) < cap {
                v == spec_digits_val(s@)
            } else {
                v == cap
            },
        },
{
    let len = s.unicode_len();
    if len == 0 {
        return None;
    }
    let mut acc: u64 = 0;
    let mut i: usize = 0;
    while i < len
        invariant
            i <= len,
            len == s@.len(),
            cap <= 0xffff_ffff,
            acc <= cap,
            spec_all_digits(s@.subrange(0, i as int)),
            if spec_digits_val(s@.subrange(0, i as int)) < cap {
                acc == spec_digits_val(s@.subrange(0, i as int))
            } else {
                acc == cap
            },
        decreases len - i,
    {
        let c = s.get_char(i);
        if !('0' <= c && c <= '9') {
            return None;
        }
        let d: u64 = (c as u8 - 48) as u64;
        proof {
            assert(s@.subrange(0, (i + 1) as int).drop_last() =~= s@.subrange(0, i as int));
            assert(s@.subrange(0, (i + 1) as int).last() == s@[i as int]);
        }
        let ghost prev_val = spec_digits_val(s@.subrange(0, i as int));
        let next = acc * 10 + d;
        if next >= cap {
            proof {
                if prev_val >= cap {
                    assert(prev_val * 10 + spec_digit_val(s@[i as int]) >= cap * 10) by (nonlinear_arith)
                        requires
                            prev_val >= cap,
                            spec_digit_val(s@[i as int]) >= 0,
                    ;
                }
            }
            acc = cap;
        } else {
            proof {
                assert(prev_val < cap);
            }
            acc = next;
        }
        i += 1;
    }
    proof {
        assert(s@.subrange(0, len as int) =~= s@);
    }
    Some(acc)
}

/// Ten to a power no higher than six, as a value.
pub fn pow10_u64(n: usize) -> (r: u64)
    requires
        n <= 6,
    ensures
        r == spec_pow10(n as nat),
{
    let r: u64 = match n {
        0 => 1,
        1 => 10,
        2 => 100,
        3 => 1000,
        4 => 10000,
        5 => 100000,
        _ => 1000000,
    };
    proof {
        reveal_with_fuel(spec_pow10, 8);
    }
    r
}

fn digit_str(d: u64) -> (r: &'static str)
    requires
        d < 10,
    ensures
        r@ == seq![spec_digit(d as int)],
{
    proof {
        reveal_strlit("0");
        reveal_strlit("1");
        reveal_strlit("2");
        reveal_strlit("3");
        reveal_strlit("4");
        reveal_strlit("5");
        reveal_strlit("6");
        reveal_strlit("7");
        reveal_strlit("8");
        reveal_strlit("9");
    }
    let r = match d {
        0 => "0",
        1 => "1",
        2 => "2",
        3 => "3",
        4 => "4",
        5 => "5",
        6 => "6",
        7 => "7",
        8 => "8",
        _ => "9",
    };
    proof {
        assert(r@ =~= seq![spec_digit(d as int)]);
    }
    r
}

/// Renders an unsigned value in decimal.
pub fn u64_to_dec(n: u64) -> (r: String)
    ensures
        r@ == spec_dec(n as nat),
    decreases n,
{
    if n < 10 {
        let r = digit_str(n).to_owned();
        r
    } else {
        let mut r = u64_to_dec(n / 10);
        r.append(digit_str(n % 10));
        proof {
            assert(r@ =~= spec_dec(n as nat));
        }
        r
    }
}

/// Renders a signed value in decimal.
pub fn i64_to_dec(n: i64) -> (r: String)
    ensures
        r@ == spec_dec_signed(n as int),
{
    if n < 0 {
        let magnitude: u64 = (-(n as i128)) as u64;
        let mut r = "-".to_owned();
        let digits = u64_to_dec(magnitude);
        r.append(digits.as_str());
        proof {
            reveal_strlit("-");
            assert(r@ =~= spec_dec_signed(n as int));
        }
        r
    } else {
        u64_to_dec(n as u64)
    }
}

} // verus!
