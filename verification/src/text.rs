//! Character-level helpers on strings, stated over their `Seq<char>` views.

use vstd::prelude::*;
use vstd::string::*;

verus! {

/// The characters of an optional string.
pub open spec fn text_of(value: Option<String>) -> Option<Seq<char>> {
    match value {
        Some(s) => Some(s@),
        None => None,
    }
}

/// The characters of an optional string slice.
pub open spec fn text_of_slice(value: Option<&str>) -> Option<Seq<char>> {
    match value {
        Some(s) => Some(s@),
        None => None,
    }
}

/// Whether `s` begins with `prefix`.
pub fn starts_with(s: &str, prefix: &str) -> (b: bool)
    ensures
        b == prefix@.is_prefix_of(s@),
{
    let n: usize = s.unicode_len();
    let m: usize = prefix.unicode_len();
    if m > n {
        return false;
    }
    let mut i: usize = 0;
    while i < m
        invariant
            i <= m <= n,
            n == s@.len(),
            m == prefix@.len(),
            s@.subrange(0, i as int) == prefix@.subrange(0, i as int),
        decreases m - i,
    {
        if s.get_char(i) != prefix.get_char(i) {
            return false;
        }
        i = i + 1;
    }
    true
}

/// Whether two strings hold the same characters.
pub fn same_text(a: &str, b: &str) -> (r: bool)
    ensures
        r == (a@ == b@),
{
    let n: usize = a.unicode_len();
    if b.unicode_len() != n {
        return false;
    }
    let mut i: usize = 0;
    while i < n
        invariant
            i <= n,
            n == a@.len(),
            n == b@.len(),
            forall|j: int| 0 <= j < i ==> a@[j] == b@[j],
        decreases n - i,
    {
        if a.get_char(i) != b.get_char(i) {
            return false;
        }
        i = i + 1;
    }
    assert(a@ =~= b@);
    true
}

/// An owned copy of an optional string slice.
pub fn owned_text(value: Option<&str>) -> (out: Option<String>)
    ensures
        text_of(out) == text_of_slice(value),
{
    match value {
        Some(s) => Some(String::from_str(s)),
        None => None,
    }
}

} // verus!
