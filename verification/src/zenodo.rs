//! The deposit service: its addresses, its answers, and the token that
//! opens it.

use crate::text::{chars_contain, chars_of, contains, decimal, decimal_text, trim, trimmed};
use vstd::prelude::*;
use vstd::string::*;

verus! {

/// The API of the production service.
pub const ZENODO_API: &'static str = "https://zenodo.org/api";

/// The API of the sandbox.
pub const ZENODO_SANDBOX_API: &'static str = "https://sandbox.zenodo.org/api";

/// The links of a deposition.
#[derive(Debug)]
pub struct DepositionLinks {
    pub html: Option<String>,
    pub bucket: Option<String>,
    pub publish: Option<String>,
    pub self_link: Option<String>,
}

/// The answer to an upload.
#[derive(Debug)]
pub struct FileResponse {
    pub key: String,
    pub size: u64,
    pub checksum: String,
}

/// The API to talk to.
pub fn api_base(sandbox: bool) -> (r: &'static str)
    ensures
        r@ == if sandbox {
            ZENODO_SANDBOX_API@
        } else {
            ZENODO_API@
        },
{
    if sandbox {
        ZENODO_SANDBOX_API
    } else {
        ZENODO_API
    }
}

/// The site that belongs to an API: the sandbox for an address that names
/// it, else the production site.
pub fn base_web_url(api: &str) -> (r: &'static str)
    ensures
        r@ == if contains(api@, "sandbox"@) {
            "https://sandbox.zenodo.org"@
        } else {
            "https://zenodo.org"@
        },
{
    let address = chars_of(api);
    let word = chars_of("sandbox");
    if chars_contain(&address, &word) {
        "https://sandbox.zenodo.org"
    } else {
        "https://zenodo.org"
    }
}

/// The environment variable that holds the token.
pub fn token_variable(sandbox: bool) -> (r: &'static str)
    ensures
        r@ == if sandbox {
            "ZENODO_SANDBOX_TOKEN"@
        } else {
            "ZENODO_TOKEN"@
        },
{
    if sandbox {
        "ZENODO_SANDBOX_TOKEN"
    } else {
        "ZENODO_TOKEN"
    }
}

/// The file of the settings directory that holds the token.
pub fn token_file(sandbox: bool) -> (r: &'static str)
    ensures
        r@ == if sandbox {
            "sandbox-token"@
        } else {
            "token"@
        },
{
    if sandbox {
        "sandbox-token"
    } else {
        "token"
    }
}

/// The token that a variable of the environment gives: trimmed, unless the
/// variable is empty.
pub fn token_from_variable(value: &str) -> (r: Option<String>)
    ensures
        r.is_some() == (value@.len() > 0),
        r matches Some(token) ==> token@ == trim(value@),
{
    if value.unicode_len() == 0 {
        None
    } else {
        Some(trimmed(value))
    }
}

/// The token that a file gives: its content trimmed, unless nothing is
/// left.
pub fn token_from_file(content: &str) -> (r: Option<String>)
    ensures
        r.is_some() == (trim(content@).len() > 0),
        r matches Some(token) ==> token@ == trim(content@),
{
    let token = trimmed(content);
    if token.as_str().unicode_len() == 0 {
        None
    } else {
        Some(token)
    }
}

/// Where depositions are created.
pub fn depositions_url(api: &str) -> (r: String)
    ensures
        r@ == api@ + "/deposit/depositions"@,
{
    let mut url = String::from_str(api);
    url.append("/deposit/depositions");
    url
}

/// The address of one deposition.
pub fn deposition_url(api: &str, deposition: u64) -> (r: String)
    ensures
        r@ == api@ + "/deposit/depositions/"@ + decimal(deposition as nat),
{
    let mut url = String::from_str(api);
    url.append("/deposit/depositions/");
    url.append(decimal_text(deposition).as_str());
    url
}

/// Where a deposition is published.
pub fn publish_url(api: &str, deposition: u64) -> (r: String)
    ensures
        r@ == api@ + "/deposit/depositions/"@ + decimal(deposition as nat) + "/actions/publish"@,
{
    let mut url = deposition_url(api, deposition);
    url.append("/actions/publish");
    url
}

/// Where a file of a deposition is uploaded to.
pub fn upload_url(bucket: &str, file_name: &str) -> (r: String)
    ensures
        r@ == bucket@ + "/"@ + file_name@,
{
    let mut url = String::from_str(bucket);
    url.append("/");
    url.append(file_name);
    url
}

} // verus!
