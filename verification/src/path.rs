//! Paths as UTF-8 strings with `/` as the separator.

use vstd::prelude::*;
use vstd::string::*;

verus! {

/// A path is absolute when it starts at the root.
pub open spec fn is_absolute(path: Seq<char>) -> bool {
    path.len() > 0 && path[0] == '/'
}

/// A separator is put behind a base that is not empty and does not end in one.
pub open spec fn needs_separator(base: Seq<char>) -> bool {
    base.len() > 0 && base.last() != '/'
}

/// `rel` resolved against `base`: an absolute `rel` replaces `base`, any
/// other is put behind it.
pub open spec fn joined(base: Seq<char>, rel: Seq<char>) -> Seq<char> {
    if is_absolute(rel) {
        rel
    } else if needs_separator(base) {
        base + seq!['/'] + rel
    } else {
        base + rel
    }
}

/// Resolves `rel` against `base`.
pub fn join(base: &str, rel: &str) -> (out: String)
    ensures
        out@ == joined(base@, rel@),
{
    let n: usize = rel.unicode_len();
    if n > 0 && rel.get_char(0) == '/' {
        return String::from_str(rel);
    }
    let m: usize = base.unicode_len();
    let mut out = String::from_str(base);
    if m > 0 && base.get_char(m - 1) != '/' {
        proof {
            reveal_strlit("/");
        }
        out.append("/");
    }
    out.append(rel);
    out
}

} // verus!
