use vstd::prelude::*;

use crate::text::concat;

verus! {

/// Paths are strings with `/` as the separator, joined the way
/// `std::path::Path::join` joins them on Unix: an absolute `rel` replaces
/// `base`; otherwise one separator is put between the two unless `base` is
/// empty or already ends with one.
pub open spec fn join_spec(base: Seq<char>, rel: Seq<char>) -> Seq<char> {
    if rel.len() > 0 && rel[0] == '/' {
        rel
    } else if base.len() == 0 || base.last() == '/' {
        base + rel
    } else {
        base + seq!['/'] + rel
    }
}

/// `rel` joined onto `base`.
pub fn join(base: &str, rel: &str) -> (r: String)
    ensures
        r@ == join_spec(base@, rel@),
{
    let nb = base.unicode_len();
    let nr = rel.unicode_len();
    if nr > 0 && rel.get_char(0) == '/' {
        String::from_str(rel)
    } else if nb == 0 || base.get_char(nb - 1) == '/' {
        concat(base, rel)
    } else {
        let mut s = String::from_str(base);
        s.append("/");
        s.append(rel);
        proof {
            reveal_strlit("/");
            assert("/"@ == seq!['/']);
        }
        s
    }
}

/// The process-wide roots that entries are laid out under: sources fetched
/// from a URL go under `cache_root`, installations under `data_root`.
pub struct Layout {
    pub cache_root: String,
    pub data_root: String,
}

} // verus!
