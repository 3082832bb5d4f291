//! What the validators are given to look at: the state of a project
//! directory and of its repository, read beforehand and held as plain values.

use crate::text::{chars_of, same_chars};
use vstd::prelude::*;

verus! {

/// One entry of the working-tree status.
#[derive(Debug, Clone)]
pub struct StatusEntry {
    pub path: String,
    /// The entry carries the "ignored" marker and nothing else.
    pub ignored: bool,
}

/// A tag and the commit it leads to once annotated tags are peeled; `None`
/// where the tag could not be resolved.
#[derive(Debug, Clone)]
pub struct TagRef {
    pub name: String,
    pub commit: Option<String>,
}

/// The commit that is checked out, and the tags of the repository in the
/// order in which the repository lists them.
#[derive(Debug)]
pub struct Head {
    pub commit: String,
    pub tags: Result<Vec<TagRef>, String>,
}

/// A file of the staged snapshot. `content` is `None` where the file does not
/// decode as text, `size` is `None` where its size could not be read.
#[derive(Debug, Clone)]
pub struct TrackedFile {
    pub path: String,
    pub content: Option<String>,
    pub size: Option<u64>,
}

/// One line of a diff: `'+'` added, `'-'` removed, `' '` unchanged context.
#[derive(Debug, Clone)]
pub struct DiffLine {
    pub origin: char,
    pub content: String,
}

/// A commit, as the lines of its diff against its first parent (against the
/// empty tree without a parent).
#[derive(Debug, Clone)]
pub struct Commit {
    pub lines: Vec<DiffLine>,
}

/// An opened repository.
#[derive(Debug)]
pub struct Checkout {
    pub status: Result<Vec<StatusEntry>, String>,
    pub head: Result<Head, String>,
    /// `None` where the staged snapshot could not be read.
    pub staged: Option<Vec<TrackedFile>>,
    /// Ancestors of the head, newest first; `None` where the history could
    /// not be walked.
    pub history: Option<Vec<Commit>>,
}

/// The repository of a project, or why it could not be opened.
#[derive(Debug)]
pub enum Repository {
    Unavailable(String),
    Open(Checkout),
}

/// The citation document of a project.
#[derive(Debug, Clone)]
pub enum CitationSource {
    Missing,
    Unreadable(String),
    Content(String),
}

/// The ignore file at the root of a project.
#[derive(Debug, Clone)]
pub enum IgnoreFile {
    Missing,
    Unreadable,
    Content(String),
}

/// A project directory at one moment.
#[derive(Debug)]
pub struct Project {
    pub repository: Repository,
    /// The relative paths, among those asked about, that exist.
    pub present: Vec<String>,
    /// The names of the entries of the root directory.
    pub root_entries: Vec<String>,
    pub citation: CitationSource,
    pub gitignore: IgnoreFile,
}

/// `name` occurs among `names`.
pub open spec fn listed(names: Seq<String>, name: Seq<char>) -> bool {
    exists|i: int| 0 <= i < names.len() && names[i]@ == name
}

/// Whether `name` occurs among `names`.
pub fn is_listed(names: &Vec<String>, name: &str) -> (r: bool)
    ensures
        r == listed(names@, name@),
{
    let wanted = chars_of(name);
    let mut i: usize = 0;
    while i < names.len()
        invariant
            i <= names.len(),
            wanted@ == name@,
            forall|k: int| 0 <= k < i ==> names@[k]@ != name@,
        decreases names.len() - i,
    {
        let have = chars_of(names[i].as_str());
        if same_chars(&have, &wanted) {
            return true;
        }
        i += 1;
    }
    false
}

impl Project {
    /// `path` was found to exist.
    pub open spec fn has_path(&self, path: Seq<char>) -> bool {
        listed(self.present@, path)
    }

    /// Whether `path` was found to exist.
    pub fn is_present(&self, path: &str) -> (r: bool)
        ensures
            r == self.has_path(path@),
    {
        is_listed(&self.present, path)
    }
}

} // verus!
