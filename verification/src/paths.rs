//! Paths as text, joined the way `PathBuf::join` joins them on Unix.
use vstd::prelude::*;

verus! {

/// `base` joined with `part`: an absolute `part` replaces `base`, and one separator goes between
/// them unless `base` is empty or already ends in one.
pub open spec fn join(base: Seq<char>, part: Seq<char>) -> Seq<char> {
    if part.len() > 0 && part[0] == '/' {
        part
    } else if base.len() == 0 || base.last() == '/' {
        base + part
    } else {
        base + seq!['/'] + part
    }
}

/// `PathBuf::join`, on text.
pub fn join_path(base: &str, part: &str) -> (joined: String)
    ensures
        joined@ == join(base@, part@),
{
    proof {
        reveal_strlit("/");
    }
    let n = part.unicode_len();
    if n > 0 && part.get_char(0) == '/' {
        return part.to_owned();
    }
    let m = base.unicode_len();
    let mut joined = base.to_owned();
    if m > 0 && base.get_char(m - 1) != '/' {
        joined.append("/");
    }
    joined.append(part);
    joined
}

/// The four durable roots, each already including vivarium's subtree.
#[derive(Clone, Debug)]
pub struct XdgRoots {
    pub config: String,
    pub data: String,
    pub state: String,
    pub cache: String,
}

/// Where a command runs: the four durable roots, each already including vivarium's subtree,
/// and the project directory, canonical and symlink-resolved.
pub struct Context {
    pub roots: XdgRoots,
    pub project: String,
}

} // verus!
