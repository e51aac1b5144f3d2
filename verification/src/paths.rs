//! Filesystem paths, carried as text.

use vstd::prelude::*;
use vstd::string::{StrSliceExecFns, StringExecFns};

verus! {

/// Whether a path starts at the root.
pub open spec fn is_absolute(path: Seq<char>) -> bool {
    path.len() > 0 && path[0] == '/'
}

/// The path `rel` below the path `base`: an absolute `rel` stands for
/// itself; otherwise it follows `base`, after a separator unless `base` is
/// empty or ends in one.
pub open spec fn joined_path(base: Seq<char>, rel: Seq<char>) -> Seq<char> {
    if is_absolute(rel) {
        rel
    } else if base.len() == 0 || base.last() == '/' {
        base + rel
    } else {
        base + seq!['/'] + rel
    }
}

/// Joins two paths.
pub fn path_join(base: &str, rel: &str) -> (r: String)
    ensures
        r@ == joined_path(base@, rel@),
{
    if rel.unicode_len() > 0 && rel.get_char(0) == '/' {
        return String::from_str(rel);
    }
    let base_len: usize = base.unicode_len();
    let mut out = String::from_str(base);
    if base_len > 0 && base.get_char(base_len - 1) != '/' {
        out.append("/");
        proof {
            reveal_strlit("/");
            assert("/"@ =~= seq!['/']);
        }
    }
    out.append(rel);
    out
}

/// The text that formatting with `{:?}` gives for the path `path`: the path
/// in quotes, with its unusual characters escaped.
pub uninterp spec fn quoted_path(path: Seq<char>) -> Seq<char>;

/// The `Debug` form of `std::path::Path`. Trusted to be a function of the
/// path's text alone; nothing is claimed about what it looks like.
#[verifier::external_body]
pub(crate) fn path_quote(path: &str) -> (r: String)
    ensures
        r@ == quoted_path(path@),
{
    format!("{:?}", std::path::Path::new(path))
}

} // verus!
