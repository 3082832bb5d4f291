//! Names and modes of the entries of a release archive.

use vstd::prelude::*;
use vstd::string::*;

verus! {

/// The mode that git records for an executable file.
pub const GIT_EXECUTABLE: u32 = 0o100755;

/// The mode of an archive entry: executable files keep their bit, every
/// other entry is a plain file.
pub open spec fn archive_mode(git_mode: u32) -> u32 {
    if git_mode == GIT_EXECUTABLE {
        0o755
    } else {
        0o644
    }
}

/// The mode of an archive entry for the mode that git records.
pub fn tar_mode(git_mode: u32) -> (r: u32)
    ensures
        r == archive_mode(git_mode),
{
    if git_mode == GIT_EXECUTABLE {
        0o755
    } else {
        0o644
    }
}

/// The tag that names a version.
pub fn version_tag(version: &str) -> (r: String)
    ensures
        r@ == "v"@ + version@,
{
    let mut tag = String::from_str("v");
    tag.append(version);
    tag
}

/// The reference of a tag.
pub fn tag_reference(tag: &str) -> (r: String)
    ensures
        r@ == "refs/tags/"@ + tag@,
{
    let mut reference = String::from_str("refs/tags/");
    reference.append(tag);
    reference
}

/// The directory that every entry of the archive lies in: project name,
/// hyphen, tag.
pub fn archive_prefix(project_name: &str, tag: &str) -> (r: String)
    ensures
        r@ == project_name@ + "-"@ + tag@,
{
    let mut prefix = String::from_str(project_name);
    prefix.append("-");
    prefix.append(tag);
    prefix
}

/// The file name of the archive.
pub fn archive_file_name(project_name: &str, tag: &str) -> (r: String)
    ensures
        r@ == project_name@ + "-"@ + tag@ + ".tar.gz"@,
{
    let mut name = archive_prefix(project_name, tag);
    name.append(".tar.gz");
    name
}

/// The path of an entry below a directory of the tree; at the root it is the
/// name alone.
pub open spec fn joined_path(directory: Seq<char>, name: Seq<char>) -> Seq<char> {
    if directory.len() == 0 {
        name
    } else {
        directory + "/"@ + name
    }
}

/// The path of an entry below a directory of the tree.
pub fn child_path(directory: &str, name: &str) -> (r: String)
    ensures
        r@ == joined_path(directory@, name@),
{
    if directory.unicode_len() == 0 {
        String::from_str(name)
    } else {
        let mut path = String::from_str(directory);
        path.append("/");
        path.append(name);
        path
    }
}

/// The path of an entry inside the archive.
pub fn entry_path(prefix: &str, path: &str) -> (r: String)
    ensures
        r@ == prefix@ + "/"@ + path@,
{
    let mut full = String::from_str(prefix);
    full.append("/");
    full.append(path);
    full
}

} // verus!
