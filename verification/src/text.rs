//! Character and string helpers shared by the selection parser and renderers.

use vstd::prelude::*;

verus! {

/// ASCII lower-casing of one character; anything outside 'A'..='Z' is kept.
pub open spec fn spec_lower_char(c: char) -> char {
    if 'A' <= c && c <= 'Z' {
        ((c as u8) + 32) as char
    } else {
        c
    }
}

/// ASCII lower-casing of a character sequence.
pub open spec fn spec_lower(s: Seq<char>) -> Seq<char> {
    Seq::new(s.len(), |i: int| spec_lower_char(s[i]))
}

/// Lower-cases one ASCII character.
pub fn lower_char(c: char) -> (r: char)
    ensures
        r == spec_lower_char(c),
{
    if 'A' <= c && c <= 'Z' {
        ((c as u8) + 32) as char
    } else {
        c
    }
}

/// True exactly when the two strings are equal after ASCII lower-casing.
pub fn eq_ignore_ascii_case(a: &str, b: &str) -> (r: bool)
    ensures
        r == (spec_lower(a@) == spec_lower(b@)),
{
    let a_len = a.unicode_len();
    let b_len = b.unicode_len();
    if a_len != b_len {
        proof {
            assert(spec_lower(a@).len() != spec_lower(b@).len());
        }
        return false;
    }
    let mut i: usize = 0;
    while i < a_len
        invariant
            i <= a_len,
            a_len == a@.len(),
            a_len == b@.len(),
            forall|j: int| 0 <= j < i ==> spec_lower(a@)[j] == spec_lower(b@)[j],
        decreases a_len - i,
    {
        if lower_char(a.get_char(i)) != lower_char(b.get_char(i)) {
            proof {
                assert(spec_lower(a@)[i as int] != spec_lower(b@)[i as int]);
            }
            return false;
        }
        i += 1;
    }
    proof {
        assert(spec_lower(a@) =~= spec_lower(b@));
    }
    true
}

/// True exactly when the two strings hold the same characters.
pub fn str_eq(a: &str, b: &str) -> (r: bool)
    ensures
        r == (a@ == b@),
{
    let a_len = a.unicode_len();
    let b_len = b.unicode_len();
    if a_len != b_len {
        return false;
    }
    let mut i: usize = 0;
    while i < a_len
        invariant
            i <= a_len,
            a_len == a@.len(),
            a_len == b@.len(),
            forall|j: int| 0 <= j < i ==> a@[j] == b@[j],
        decreases a_len - i,
    {
        if a.get_char(i) != b.get_char(i) {
            return false;
        }
        i += 1;
    }
    proof {
        assert(a@ =~= b@);
    }
    true
}

/// The first position of a character in a sequence, if it occurs.
pub open spec fn spec_find(s: Seq<char>, c: char) -> Option<int>
    decreases s.len(),
{
    if s.len() == 0 {
        None
    } else if s[0] == c {
        Some(0)
    } else {
        match spec_find(s.drop_first(), c) {
            Some(i) => Some(i + 1),
            None => None,
        }
    }
}

/// What `spec_find` returns, said positionally: the found index holds the
/// character and nothing before it does; `None` means it occurs nowhere.
pub proof fn lemma_find_position(s: Seq<char>, c: char)
    ensures
        match spec_find(s, c) {
            Some(i) => 0 <= i < s.len() && s[i] == c && forall|j: int| 0 <= j < i ==> s[j] != c,
            None => forall|j: int| 0 <= j < s.len() ==> s[j] != c,
        },
    decreases s.len(),
{
    if s.len() > 0 && s[0] != c {
        let t = s.drop_first();
        lemma_find_position(t, c);
        assert(forall|j: int| 1 <= j < s.len() ==> s[j] == t[j - 1]);
    }
}

/// Finds the first occurrence of a character in a string.
pub fn find_char(s: &str, c: char) -> (r: Option<usize>)
    ensures
        match r {
            Some(i) => spec_find(s@, c) == Some(i as int),
            None => spec_find(s@, c) is None,
        },
{
    let len = s.unicode_len();
    let mut i: usize = 0;
    while i < len
        invariant
            i <= len,
            len == s@.len(),
            forall|j: int| 0 <= j < i ==> s@[j] != c,
        decreases len - i,
    {
        if s.get_char(i) == c {
            proof {
                lemma_find_position(s@, c);
                match spec_find(s@, c) {
                    Some(k) => {
                        assert(!(k < i) && !(i < k));
                    },
                    None => {
                        assert(false);
                    },
                }
            }
            return Some(i);
        }
        i += 1;
    }
    proof {
        lemma_find_position(s@, c);
    }
    None
}

/// A run of spaces of the given length.
pub open spec fn spec_spaces(n: nat) -> Seq<char>
    decreases n,
{
    if n == 0 {
        Seq::empty()
    } else {
        spec_spaces((n - 1) as nat) + seq![' ']
    }
}

/// The string padded on the left with spaces to the given width; a string
/// already at least that wide is kept as it is.
pub open spec fn spec_pad_left(s: Seq<char>, width: nat) -> Seq<char> {
    if s.len() >= width {
        s
    } else {
        spec_spaces((width - s.len()) as nat) + s
    }
}

/// Pads a string on the left with spaces to the given width.
pub fn pad_left(s: &str, width: usize) -> (r: String)
    ensures
        r@ == spec_pad_left(s@, width as nat),
{
    let len = s.unicode_len();
    if len >= width {
        return s.to_owned();
    }
    let mut pad = String::new();
    let mut i: usize = 0;
    while i < width - len
        invariant
            i <= width - len,
            len == s@.len(),
            len < width,
            pad@ == spec_spaces(i as nat),
        decreases width - len - i,
    {
        pad.append(" ");
        proof {
            reveal_strlit(" ");
            assert(pad@ =~= spec_spaces((i + 1) as nat));
        }
        i += 1;
    }
    pad.append(s);
    pad
}

} // verus!
