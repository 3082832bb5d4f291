//! What setting up push mirrors decides: which mirrors to add, and where.

use crate::text::{chars_contain, chars_of, contains};
use vstd::prelude::*;
use vstd::string::*;

verus! {

/// How often a mirror is synchronised.
pub const MIRROR_INTERVAL: &'static str = "8h0m0s";

/// What to do about the mirror on one host.
#[derive(Debug)]
pub enum MirrorPlan {
    /// User or token is not configured.
    NotConfigured,
    /// A mirror on the host exists already.
    Exists,
    /// Add the mirror at this address.
    Add(String),
}

/// The address of the push mirrors of a repository on Codeberg.
pub fn mirrors_endpoint(owner: &str, repo: &str) -> (r: String)
    ensures
        r@ == "https://codeberg.org/api/v1/repos/"@ + owner@ + "/"@ + repo@ + "/push_mirrors"@,
{
    let mut url = String::from_str("https://codeberg.org/api/v1/repos/");
    url.append(owner);
    url.append("/");
    url.append(repo);
    url.append("/push_mirrors");
    url
}

/// The address of a repository on a host.
pub open spec fn remote_address(host: Seq<char>, user: Seq<char>, repo: Seq<char>) -> Seq<char> {
    "https://"@ + host + "/"@ + user + "/"@ + repo + ".git"@
}

/// The address of a repository on a host.
pub fn remote_url(host: &str, user: &str, repo: &str) -> (r: String)
    ensures
        r@ == remote_address(host@, user@, repo@),
{
    let mut url = String::from_str("https://");
    url.append(host);
    url.append("/");
    url.append(user);
    url.append("/");
    url.append(repo);
    url.append(".git");
    url
}

/// One of the addresses names `host`.
pub open spec fn mirrored_on(existing: Seq<String>, host: Seq<char>) -> bool {
    exists|i: int| 0 <= i < existing.len() && contains(existing[i]@, host)
}

/// Whether one of the existing mirrors lies on `host`.
pub fn has_mirror_on(existing: &Vec<String>, host: &str) -> (r: bool)
    ensures
        r == mirrored_on(existing@, host@),
{
    let wanted = chars_of(host);
    let mut i: usize = 0;
    while i < existing.len()
        invariant
            i <= existing.len(),
            wanted@ == host@,
            forall|k: int| 0 <= k < i ==> !contains(existing@[k]@, host@),
        decreases existing.len() - i,
    {
        let address = chars_of(existing[i].as_str());
        if chars_contain(&address, &wanted) {
            return true;
        }
        i += 1;
    }
    false
}

/// Decides about the mirror on one host: nothing without user and token,
/// nothing where a mirror on the host exists, else the address to add.
pub fn plan_mirror(
    host: &str,
    user: &Option<String>,
    token: &Option<String>,
    repo: &str,
    existing: &Vec<String>,
) -> (r: MirrorPlan)
    ensures
        match r {
            MirrorPlan::NotConfigured => user is None || token is None,
            MirrorPlan::Exists => user is Some && token is Some && mirrored_on(existing@, host@),
            MirrorPlan::Add(url) => user is Some && token is Some && !mirrored_on(
                existing@,
                host@,
            ) && url@ == remote_address(host@, user.unwrap()@, repo@),
        },
{
    match (user, token) {
        (Some(name), Some(_)) => {
            if has_mirror_on(existing, host) {
                MirrorPlan::Exists
            } else {
                MirrorPlan::Add(remote_url(host, name.as_str(), repo))
            }
        },
        _ => MirrorPlan::NotConfigured,
    }
}

} // verus!
