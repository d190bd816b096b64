use vstd::prelude::*;
use vstd::string::StringExecFns;

verus! {

/// Prefix of the remote-tracking reference of a branch.
pub open spec fn remote_prefix() -> Seq<char> {
    seq!['r', 'e', 'f', 's', '/', 'r', 'e', 'm', 'o', 't', 'e', 's', '/', 'o', 'r', 'i', 'g', 'i', 'n', '/']
}

/// Prefix of the local reference of a branch.
pub open spec fn local_prefix() -> Seq<char> {
    seq!['r', 'e', 'f', 's', '/', 'h', 'e', 'a', 'd', 's', '/']
}

/// The remote-tracking reference name of `branch`, tried first.
pub fn remote_ref_name(branch: &str) -> (r: String)
    ensures
        r@ == remote_prefix() + branch@,
{
    proof {
        reveal_strlit("refs/remotes/origin/");
    }
    let prefix = String::from_str("refs/remotes/origin/");
    assert(prefix@ =~= remote_prefix());
    prefix.concat(branch)
}

/// The local reference name of `branch`, tried when the remote-tracking one is absent.
pub fn local_ref_name(branch: &str) -> (r: String)
    ensures
        r@ == local_prefix() + branch@,
{
    proof {
        reveal_strlit("refs/heads/");
    }
    let prefix = String::from_str("refs/heads/");
    assert(prefix@ =~= local_prefix());
    prefix.concat(branch)
}

} // verus!
