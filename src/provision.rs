use vstd::prelude::*;
use vstd::string::StringExecFns;

verus! {

/// Relies on `std::path::Path::exists`: whether the locator names something on
/// disk. The answer depends on the filesystem, so nothing is stated of it.
#[verifier::external_body]
fn path_exists(p: &str) -> (r: bool) {
    std::path::Path::new(p).exists()
}

/// Whether the locator names an existing local path.
pub fn is_local_repo(url: &str) -> (r: bool) {
    path_exists(url)
}

/// How a workspace is to be filled.
#[derive(Clone, Copy, Debug, PartialEq, Eq, Structural)]
pub enum Provision {
    /// Copy the contents of the local directory into the workspace.
    CopyLocal,
    /// Clone the remote repository into the workspace.
    CloneRemote,
}

/// Chooses how to fill the workspace: a locator that exists on disk is copied,
/// any other is cloned.
pub fn provision_for(locator_exists: bool) -> (r: Provision)
    ensures
        locator_exists <==> r == Provision::CopyLocal,
        !locator_exists <==> r == Provision::CloneRemote,
{
    if locator_exists {
        Provision::CopyLocal
    } else {
        Provision::CloneRemote
    }
}

/// Classifies a locator by looking at the disk and chooses how to provision.
pub fn classify_locator(url: &str) -> (r: Provision) {
    provision_for(is_local_repo(url))
}

/// Identity offered to a key agent when the server names none.
pub open spec fn default_user() -> Seq<char> {
    seq!['g', 'i', 't']
}

/// The credential to present to a server during a clone.
pub enum CredentialPlan {
    /// Ask the key agent for the identity of this user.
    SshAgent(String),
    /// Present this user name and password (or token).
    UserPass { user: String, pass: String },
    /// The server asked for nothing that can be supplied: the clone fails.
    Unavailable,
}

/// Chooses a credential from the schemes the server allows and the material
/// at hand. Key-based access is preferred; its user is the one the server
/// suggested, else `git`. For a password the user defaults to `git` too, and
/// a missing password makes the credential unavailable.
pub fn choose_credential(
    ssh_allowed: bool,
    userpass_allowed: bool,
    url_user: Option<String>,
    given_user: Option<String>,
    given_pass: Option<String>,
) -> (r: CredentialPlan)
    ensures
        ssh_allowed ==> r is SshAgent && (match url_user {
            Some(u) => r->SshAgent_0 == u,
            None => r->SshAgent_0@ == default_user(),
        }),
        !ssh_allowed && userpass_allowed && given_pass is Some ==> r is UserPass
            && r->pass == given_pass.unwrap() && (match given_user {
            Some(u) => r->user == u,
            None => r->user@ == default_user(),
        }),
        !ssh_allowed && !(userpass_allowed && given_pass is Some) ==> r is Unavailable,
{
    proof {
        reveal_strlit("git");
    }
    if ssh_allowed {
        let user = match url_user {
            Some(u) => u,
            None => String::from_str("git"),
        };
        assert(url_user is None ==> user@ =~= default_user());
        CredentialPlan::SshAgent(user)
    } else if userpass_allowed {
        match given_pass {
            Some(pass) => {
                let user = match given_user {
                    Some(u) => u,
                    None => String::from_str("git"),
                };
                assert(given_user is None ==> user@ =~= default_user());
                CredentialPlan::UserPass { user, pass }
            },
            None => CredentialPlan::Unavailable,
        }
    } else {
        CredentialPlan::Unavailable
    }
}

} // verus!
