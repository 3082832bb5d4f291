//! The checksum of an archive.

use sha2::Digest;
use vstd::prelude::*;
use vstd::string::*;

verus! {

/// The SHA-256 digest of `data` in lower-case hexadecimal, as the `sha2`
/// crate computes it.
pub uninterp spec fn sha256_hex(data: Seq<u8>) -> Seq<char>;

/// Calls `sha2::Sha256::digest` and writes the digest with `{:x}`. Claims
/// only that the result is the one that `sha256_hex` names.
#[verifier::external_body]
fn digest_hex(data: &[u8]) -> (r: String)
    ensures
        r@ == sha256_hex(data@),
{
    format!("{:x}", sha2::Sha256::digest(data))
}

/// The SHA-256 digest of `data` in lower-case hexadecimal.
pub fn sha256_bytes(data: &[u8]) -> (r: String)
    ensures
        r@ == sha256_hex(data@),
{
    digest_hex(data)
}

/// The line of a checksum file: the digest, two spaces, the file name.
pub fn checksum_line(digest: &str, file_name: &str) -> (r: String)
    ensures
        r@ == digest@ + "  "@ + file_name@ + "\n"@,
{
    let mut line = String::from_str(digest);
    line.append("  ");
    line.append(file_name);
    line.append("\n");
    line
}

} // verus!
