//! Path composition as `PathBuf::join` does it on Unix, on path strings.

use vstd::prelude::*;
use crate::text::{chars_of, string_of};

verus! {

/// `base.join(comp)`: an absolute `comp` replaces `base`; otherwise `comp` is
/// appended, with a `/` between them unless `base` is empty or already ends in one.
pub open spec fn join_spec(base: Seq<char>, comp: Seq<char>) -> Seq<char> {
    if comp.len() > 0 && comp[0] == '/' {
        comp
    } else if base.len() == 0 || base.last() == '/' {
        base + comp
    } else {
        base.push('/') + comp
    }
}

pub fn path_join(base: &str, comp: &str) -> (r: String)
    ensures
        r@ == join_spec(base@, comp@),
{
    let b = chars_of(base);
    let c = chars_of(comp);
    if c.len() > 0 && c[0] == '/' {
        return string_of(&c);
    }
    let mut out = b;
    if out.len() > 0 && out[out.len() - 1] != '/' {
        out.push('/');
    }
    let ghost prefix = out@;
    let mut i: usize = 0;
    while i < c.len()
        invariant
            i <= c.len(),
            c@ == comp@,
            out@ == prefix + c@.subrange(0, i as int),
        decreases c.len() - i,
    {
        out.push(c[i]);
        i += 1;
    }
    assert(c@.subrange(0, c.len() as int) =~= c@);
    string_of(&out)
}

/// `data_dir/cli-sockets`: where the CLI daemons put their sockets.
pub fn sockets_dir(data_dir: &str) -> (r: String)
    ensures
        r@ == join_spec(data_dir@, "cli-sockets"@),
{
    path_join(data_dir, "cli-sockets")
}

/// The socket of the daemon that serves `session_id`: `data_dir/cli-sockets/<id>.sock`.
pub fn socket_path(data_dir: &str, session_id: &str) -> (r: String)
    ensures
        r@ == join_spec(join_spec(data_dir@, "cli-sockets"@), session_id@ + ".sock"@),
{
    let dir = sockets_dir(data_dir);
    let mut name = chars_of(session_id);
    let suffix = chars_of(".sock");
    let ghost n0 = name@;
    let mut i: usize = 0;
    while i < suffix.len()
        invariant
            i <= suffix.len(),
            suffix@ == ".sock"@,
            name@ == n0 + suffix@.subrange(0, i as int),
        decreases suffix.len() - i,
    {
        name.push(suffix[i]);
        i += 1;
    }
    assert(suffix@.subrange(0, suffix.len() as int) =~= suffix@);
    let file = string_of(&name);
    path_join(dir.as_str(), file.as_str())
}

/// The shared hebcore socket: `data_dir/hebcore.sock`.
pub fn hebcore_sock(data_dir: &str) -> (r: String)
    ensures
        r@ == join_spec(data_dir@, "hebcore.sock"@),
{
    path_join(data_dir, "hebcore.sock")
}

} // verus!
