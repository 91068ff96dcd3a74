//! Case folding and character-sequence helpers.
//!
//! Attribute aliases and skill names are matched case-insensitively.  The
//! library folds the ASCII letters and the German umlauts to lower case;
//! every other character stands for itself.

use vstd::prelude::*;

verus! {

/// Lower-case image of one character: ASCII letters and the German umlauts
/// are folded, everything else is unchanged.
pub open spec fn lower_char(c: char) -> char {
    if c == 'A' {
        'a'
    } else if c == 'B' {
        'b'
    } else if c == 'C' {
        'c'
    } else if c == 'D' {
        'd'
    } else if c == 'E' {
        'e'
    } else if c == 'F' {
        'f'
    } else if c == 'G' {
        'g'
    } else if c == 'H' {
        'h'
    } else if c == 'I' {
        'i'
    } else if c == 'J' {
        'j'
    } else if c == 'K' {
        'k'
    } else if c == 'L' {
        'l'
    } else if c == 'M' {
        'm'
    } else if c == 'N' {
        'n'
    } else if c == 'O' {
        'o'
    } else if c == 'P' {
        'p'
    } else if c == 'Q' {
        'q'
    } else if c == 'R' {
        'r'
    } else if c == 'S' {
        's'
    } else if c == 'T' {
        't'
    } else if c == 'U' {
        'u'
    } else if c == 'V' {
        'v'
    } else if c == 'W' {
        'w'
    } else if c == 'X' {
        'x'
    } else if c == 'Y' {
        'y'
    } else if c == 'Z' {
        'z'
    } else if c == 'Ä' {
        'ä'
    } else if c == 'Ö' {
        'ö'
    } else if c == 'Ü' {
        'ü'
    } else {
        c
    }
}

/// Lower-case image of a character sequence, folded character by character.
pub open spec fn lower(s: Seq<char>) -> Seq<char> {
    s.map_values(|c: char| lower_char(c))
}

/// Folding is idempotent: folding an already folded sequence changes nothing.
pub proof fn lemma_lower_idempotent(s: Seq<char>)
    ensures
        lower(lower(s)) == lower(s),
{
    assert(lower(lower(s)) =~= lower(s));
}

/// Computes [`lower_char`] on one character.
pub fn lower_char_exec(c: char) -> (r: char)
    ensures
        r == lower_char(c),
{
    if c == 'A' {
        'a'
    } else if c == 'B' {
        'b'
    } else if c == 'C' {
        'c'
    } else if c == 'D' {
        'd'
    } else if c == 'E' {
        'e'
    } else if c == 'F' {
        'f'
    } else if c == 'G' {
        'g'
    } else if c == 'H' {
        'h'
    } else if c == 'I' {
        'i'
    } else if c == 'J' {
        'j'
    } else if c == 'K' {
        'k'
    } else if c == 'L' {
        'l'
    } else if c == 'M' {
        'm'
    } else if c == 'N' {
        'n'
    } else if c == 'O' {
        'o'
    } else if c == 'P' {
        'p'
    } else if c == 'Q' {
        'q'
    } else if c == 'R' {
        'r'
    } else if c == 'S' {
        's'
    } else if c == 'T' {
        't'
    } else if c == 'U' {
        'u'
    } else if c == 'V' {
        'v'
    } else if c == 'W' {
        'w'
    } else if c == 'X' {
        'x'
    } else if c == 'Y' {
        'y'
    } else if c == 'Z' {
        'z'
    } else if c == 'Ä' {
        'ä'
    } else if c == 'Ö' {
        'ö'
    } else if c == 'Ü' {
        'ü'
    } else {
        c
    }
}

/// Collects the characters of a string slice, in order.
pub fn str_chars(s: &str) -> (r: Vec<char>)
    ensures
        r@ == s@,
{
    let mut r: Vec<char> = Vec::new();
    for c in it: s.chars()
        invariant
            it.seq() == s@,
            r@ == it.seq().subrange(0, it.index() as int),
    {
        r.push(c);
    }
    assert(r@ =~= s@);
    r
}

/// Collects the lower-case image of a string slice's characters.
pub fn to_lower_chars(s: &str) -> (r: Vec<char>)
    ensures
        r@ == lower(s@),
{
    let mut r: Vec<char> = Vec::new();
    for c in it: s.chars()
        invariant
            it.seq() == s@,
            r@ == lower(it.seq().subrange(0, it.index() as int)),
    {
        let ghost prefix = it.seq().subrange(0, it.index() as int);
        r.push(lower_char_exec(c));
        proof {
            assert(it.seq().subrange(0, it.index() + 1) =~= prefix.push(c));
            assert(lower(prefix.push(c)) =~= lower(prefix).push(lower_char(c)));
        }
    }
    assert(lower(s@) =~= lower(s@.subrange(0, s@.len() as int)));
    r
}

/// Relies on `String::push` of std: appends the character to the end of the
/// string.
#[verifier::external_body]
pub fn push_char(s: String, c: char) -> (r: String)
    ensures
        r@ == s@.push(c),
{
    let mut s = s;
    s.push(c);
    s
}

/// Builds the lower-case image of a string slice as an owned string.
pub fn lower_string(s: &str) -> (r: String)
    ensures
        r@ == lower(s@),
{
    let low = to_lower_chars(s);
    let mut r = String::new();
    let mut i: usize = 0;
    while i < low.len()
        invariant
            i <= low@.len(),
            low@ == lower(s@),
            r@ == low@.subrange(0, i as int),
        decreases low@.len() - i,
    {
        r = push_char(r, low[i]);
        proof {
            assert(low@.subrange(0, i + 1) =~= low@.subrange(0, i as int).push(low@[i as int]));
        }
        i += 1;
    }
    proof {
        assert(r@ =~= lower(s@));
    }
    r
}

/// Compares two character vectors for equality of their sequences.
pub fn chars_eq(a: &Vec<char>, b: &Vec<char>) -> (r: bool)
    ensures
        r == (a@ == b@),
{
    if a.len() != b.len() {
        assert(a@ != b@);
        return false;
    }
    let n = a.len();
    let mut i: usize = 0;
    while i < n
        invariant
            0 <= i <= n,
            n == a@.len() == b@.len(),
            forall|j: int| 0 <= j < i ==> a@[j] == b@[j],
        decreases n - i,
    {
        if a[i] != b[i] {
            assert(a@ != b@);
            return false;
        }
        i += 1;
    }
    assert(a@ =~= b@);
    true
}

/// Compares a character vector against a string slice's characters.
pub fn chars_eq_str(v: &Vec<char>, s: &str) -> (r: bool)
    ensures
        r == (v@ == s@),
{
    let sv = str_chars(s);
    chars_eq(v, &sv)
}

} // verus!
