use vstd::prelude::*;

verus! {

/// A path joined to a relative one, with `/` as the separator: no separator
/// is added where `base` is empty or already ends in one.
pub open spec fn joined(base: Seq<char>, rel: Seq<char>) -> Seq<char> {
    if base.len() == 0 || base.last() == '/' {
        base + rel
    } else {
        base + seq!['/'] + rel
    }
}

/// Joins the relative path `rel` onto `base`.
pub fn join_path(base: &str, rel: &str) -> (r: String)
    ensures
        r@ == joined(base@, rel@),
{
    let n = base.unicode_len();
    let mut r = base.to_owned();
    if n > 0 && base.get_char(n - 1) != '/' {
        r.append("/");
        proof {
            reveal_strlit("/");
        }
    }
    r.append(rel);
    r
}

/// The name under which a module target's artifact is written: each hyphen
/// of the target name becomes an underscore.
pub open spec fn module_file_stem(target: Seq<char>) -> Seq<char> {
    target.map_values(|c: char| if c == '-' { '_' } else { c })
}

/// Relies on `str::replace` with a one-character pattern and replacement:
/// every occurrence of `-` is replaced by `_`, all other characters kept.
#[verifier::external_body]
pub(crate) fn replace_hyphens(s: &str) -> (r: String)
    ensures
        r@ == module_file_stem(s@),
{
    s.replace("-", "_")
}

} // verus!
