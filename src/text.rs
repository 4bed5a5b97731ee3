//! Character-level comparisons of strings.
use vstd::prelude::*;
use vstd::string::*;

verus! {

/// The ASCII lowercase form of one character: `A` to `Z` become `a` to `z`,
/// every other character is left as it is.
pub open spec fn ascii_lower_char(c: char) -> char {
    if 'A' <= c && c <= 'Z' {
        ((c as u8) + 32) as u8 as char
    } else {
        c
    }
}

/// The ASCII lowercase form of a string, character by character.
pub open spec fn ascii_lower(s: Seq<char>) -> Seq<char> {
    s.map_values(|c: char| ascii_lower_char(c))
}

/// Lowering a string that is already in ASCII lowercase leaves it as it is.
pub proof fn lemma_ascii_lower_idempotent(s: Seq<char>)
    ensures
        ascii_lower(ascii_lower(s)) == ascii_lower(s),
{
    assert(ascii_lower(ascii_lower(s)) =~= ascii_lower(s));
}

fn lower_char(c: char) -> (r: char)
    ensures
        r == ascii_lower_char(c),
{
    if 'A' <= c && c <= 'Z' {
        let b: u8 = c as u8;
        (b + 32) as char
    } else {
        c
    }
}

/// Whether `s`, once put in ASCII lowercase, reads exactly `lower`.
pub fn equals_lowercased(s: &str, lower: &str) -> (r: bool)
    ensures
        r == (ascii_lower(s@) == lower@),
{
    let n = s.unicode_len();
    let m = lower.unicode_len();
    if n != m {
        proof {
            assert(ascii_lower(s@).len() == s@.len());
        }
        return false;
    }
    let mut i: usize = 0;
    while i < n
        invariant
            n == s@.len(),
            m == lower@.len(),
            n == m,
            i <= n,
            forall|j: int| 0 <= j < i ==> ascii_lower_char(#[trigger] s@[j]) == lower@[j],
        decreases n - i,
    {
        if lower_char(s.get_char(i)) != lower.get_char(i) {
            proof {
                assert(ascii_lower(s@)[i as int] != lower@[i as int]);
            }
            return false;
        }
        i = i + 1;
    }
    proof {
        assert(ascii_lower(s@) =~= lower@);
    }
    true
}

/// Whether `a` and `b` hold the same characters.
pub fn same_text(a: &str, b: &str) -> (r: bool)
    ensures
        r == (a@ == b@),
{
    let n = a.unicode_len();
    if n != b.unicode_len() {
        return false;
    }
    let mut i: usize = 0;
    while i < n
        invariant
            n == a@.len(),
            n == b@.len(),
            i <= n,
            forall|j: int| 0 <= j < i ==> #[trigger] a@[j] == b@[j],
        decreases n - i,
    {
        if a.get_char(i) != b.get_char(i) {
            return false;
        }
        i = i + 1;
    }
    proof {
        assert(a@ =~= b@);
    }
    true
}

} // verus!
