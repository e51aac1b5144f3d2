//! Small operations on text.

use vstd::prelude::*;
use vstd::string::StrSliceExecFns;

verus! {

/// Whether two texts are the same.
pub fn text_eq(a: &str, b: &str) -> (r: bool)
    ensures
        r == (a@ == b@),
{
    let n: usize = a.unicode_len();
    if n != b.unicode_len() {
        return false;
    }
    let mut i: usize = 0;
    while i < n
        invariant
            n == a@.len(),
            n == b@.len(),
            0 <= i <= n,
            forall|j: int| 0 <= j < i ==> a@[j] == b@[j],
        decreases n - i,
    {
        if a.get_char(i) != b.get_char(i) {
            return false;
        }
        i += 1;
    }
    assert(a@ =~= b@);
    true
}

/// Whether `c` occurs in `s`.
pub fn has_char(s: &str, c: char) -> (r: bool)
    ensures
        r == s@.contains(c),
{
    let n: usize = s.unicode_len();
    let mut i: usize = 0;
    while i < n
        invariant
            n == s@.len(),
            0 <= i <= n,
            forall|j: int| 0 <= j < i ==> s@[j] != c,
        decreases n - i,
    {
        if s.get_char(i) == c {
            return true;
        }
        i += 1;
    }
    false
}

/// Whether every character of `s` is ASCII.
pub open spec fn is_ascii_text(s: Seq<char>) -> bool {
    forall|i: int| 0 <= i < s.len() ==> (#[trigger] s[i] as u32) < 128
}

/// The characters of an ASCII text as bytes.
pub open spec fn ascii_bytes_of(s: Seq<char>) -> Seq<u8> {
    Seq::new(s.len(), |i: int| s[i] as u8)
}

/// The bytes of `s` where it is all ASCII.
pub fn ascii_bytes(s: &str) -> (r: Option<Vec<u8>>)
    ensures
        r is Some <==> is_ascii_text(s@),
        r matches Some(v) ==> v@ == ascii_bytes_of(s@),
{
    let n: usize = s.unicode_len();
    let mut out: Vec<u8> = Vec::new();
    let mut i: usize = 0;
    while i < n
        invariant
            n == s@.len(),
            0 <= i <= n,
            out@.len() == i,
            forall|j: int| 0 <= j < i ==> (#[trigger] s@[j] as u32) < 128,
            forall|j: int| 0 <= j < i ==> out@[j] == s@[j] as u8,
        decreases n - i,
    {
        let c: char = s.get_char(i);
        if c as u32 >= 128 {
            return None;
        }
        out.push(c as u8);
        i += 1;
    }
    assert(out@ =~= ascii_bytes_of(s@));
    Some(out)
}

} // verus!
