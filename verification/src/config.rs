//! The settings of a project: which forge it lives on, which files a release
//! needs, and who its author is.

use crate::text::copy_of;
use vstd::prelude::*;
use vstd::string::*;

verus! {

/// The forge that hosts the project.
#[derive(Debug, Clone, Copy, PartialEq, Eq, Structural)]
pub enum Forge {
    Codeberg,
    Github,
    Gitlab,
}

impl Default for Forge {
    fn default() -> (r: Forge)
        ensures
            r == Forge::Codeberg,
    {
        Forge::Codeberg
    }
}

/// The name of a forge in lower case.
pub open spec fn forge_name(forge: Forge) -> Seq<char> {
    match forge {
        Forge::Codeberg => "codeberg"@,
        Forge::Github => "github"@,
        Forge::Gitlab => "gitlab"@,
    }
}

impl Forge {
    /// The name of the forge in lower case.
    pub fn name(&self) -> (r: String)
        ensures
            r@ == forge_name(*self),
    {
        match self {
            Forge::Codeberg => String::from_str("codeberg"),
            Forge::Github => String::from_str("github"),
            Forge::Gitlab => String::from_str("gitlab"),
        }
    }
}

/// Who publishes the release.
#[derive(Debug, Clone)]
pub struct AuthorConfig {
    pub name: Option<String>,
    pub orcid: Option<String>,
    pub email: Option<String>,
}

impl Default for AuthorConfig {
    fn default() -> (r: AuthorConfig)
        ensures
            r.name is None,
            r.orcid is None,
            r.email is None,
    {
        AuthorConfig { name: None, orcid: None, email: None }
    }
}

/// `first` where it is given, else `second`.
pub open spec fn or_else(first: Option<String>, second: Option<String>) -> Option<String> {
    if first is Some {
        first
    } else {
        second
    }
}

/// An author whose gaps are filled from a fallback.
pub open spec fn merged_author(author: AuthorConfig, fallback: AuthorConfig) -> AuthorConfig {
    AuthorConfig {
        name: or_else(author.name, fallback.name),
        orcid: or_else(author.orcid, fallback.orcid),
        email: or_else(author.email, fallback.email),
    }
}

impl AuthorConfig {
    /// Fills each field that is not set from `fallback`; a field that is set
    /// stays as it is.
    pub fn merge_with_fallback(&mut self, fallback: &AuthorConfig)
        ensures
            *final(self) == merged_author(*old(self), *fallback),
    {
        if self.name.is_none() {
            self.name = copy_of(&fallback.name);
        }
        if self.orcid.is_none() {
            self.orcid = copy_of(&fallback.orcid);
        }
        if self.email.is_none() {
            self.email = copy_of(&fallback.email);
        }
    }
}

/// The accounts that mirrors are pushed to.
#[derive(Debug, Clone)]
pub struct MirrorsConfig {
    pub codeberg_user: Option<String>,
    pub codeberg_token: Option<String>,
    pub github_user: Option<String>,
    pub github_token: Option<String>,
    pub gitlab_user: Option<String>,
    pub gitlab_token: Option<String>,
}

impl Default for MirrorsConfig {
    fn default() -> (r: MirrorsConfig)
        ensures
            r.codeberg_user is None,
            r.codeberg_token is None,
            r.github_user is None,
            r.github_token is None,
            r.gitlab_user is None,
            r.gitlab_token is None,
    {
        MirrorsConfig {
            codeberg_user: None,
            codeberg_token: None,
            github_user: None,
            github_token: None,
            gitlab_user: None,
            gitlab_token: None,
        }
    }
}

/// The settings of a project.
#[derive(Debug, Clone)]
pub struct Config {
    pub forge: Forge,
    pub forge_url: Option<String>,
    pub required_files: Vec<String>,
    pub archive_dir: String,
    pub language: String,
    pub author: Option<AuthorConfig>,
    pub mirrors: Option<MirrorsConfig>,
}

/// The files a release needs unless the settings say otherwise.
pub open spec fn standard_required_files() -> Seq<Seq<char>> {
    seq!["LICENSE"@, "README.md"@, "CHANGELOG.md"@, "CITATION.cff"@]
}

/// The views of a list of file names.
pub open spec fn file_names(files: Seq<String>) -> Seq<Seq<char>> {
    Seq::new(files.len(), |i: int| files[i]@)
}

/// The language of a release unless the settings say otherwise.
pub fn default_language() -> (r: String)
    ensures
        r@ == "eng"@,
{
    String::from_str("eng")
}

/// The files a release needs unless the settings say otherwise.
pub fn default_required_files() -> (r: Vec<String>)
    ensures
        file_names(r@) == standard_required_files(),
{
    let mut files: Vec<String> = Vec::new();
    files.push(String::from_str("LICENSE"));
    files.push(String::from_str("README.md"));
    files.push(String::from_str("CHANGELOG.md"));
    files.push(String::from_str("CITATION.cff"));
    assert(file_names(files@) =~= standard_required_files());
    files
}

/// The directory that release bundles go to unless the settings say
/// otherwise.
pub fn default_archive_dir() -> (r: String)
    ensures
        r@ == "release"@,
{
    String::from_str("release")
}

impl Default for Config {
    fn default() -> (r: Config)
        ensures
            r.forge == Forge::Codeberg,
            r.forge_url is None,
            file_names(r.required_files@) == standard_required_files(),
            r.archive_dir@ == "release"@,
            r.language@ == "eng"@,
            r.author is None,
            r.mirrors is None,
    {
        Config {
            forge: Forge::Codeberg,
            forge_url: None,
            required_files: default_required_files(),
            archive_dir: default_archive_dir(),
            language: default_language(),
            author: None,
            mirrors: None,
        }
    }
}

/// The author of a project once the global settings have filled its gaps.
pub open spec fn merged_authors(project: Option<AuthorConfig>, global: Option<AuthorConfig>)
    -> Option<AuthorConfig> {
    match global {
        Some(fallback) => match project {
            Some(author) => Some(merged_author(author, fallback)),
            None => Some(fallback),
        },
        None => project,
    }
}

impl Config {
    /// Lays the settings of a project over the global ones. The author of
    /// the project keeps what it sets and takes the rest from the global
    /// author; the mirrors are the project's where it has any, else the
    /// global ones. Everything else is the project's.
    pub fn merge_global(self, global: Config) -> (r: Config)
        ensures
            r.forge == self.forge,
            r.forge_url == self.forge_url,
            r.required_files == self.required_files,
            r.archive_dir == self.archive_dir,
            r.language == self.language,
            r.author == merged_authors(self.author, global.author),
            r.mirrors == if self.mirrors is Some {
                self.mirrors
            } else {
                global.mirrors
            },
    {
        let author = match global.author {
            Some(fallback) => match self.author {
                Some(mut author) => {
                    author.merge_with_fallback(&fallback);
                    Some(author)
                },
                None => Some(fallback),
            },
            None => self.author,
        };
        let mirrors = if self.mirrors.is_none() {
            global.mirrors
        } else {
            self.mirrors
        };
        Config {
            forge: self.forge,
            forge_url: self.forge_url,
            required_files: self.required_files,
            archive_dir: self.archive_dir,
            language: self.language,
            author,
            mirrors,
        }
    }
}

} // verus!
