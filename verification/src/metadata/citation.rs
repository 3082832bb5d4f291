//! The citation file of a project, with the fields that a deposit takes
//! from it.

use vstd::prelude::*;
use vstd::string::*;

verus! {

/// One author of the citation file.
#[derive(Debug, Clone)]
pub struct CffAuthor {
    pub family_names: String,
    pub given_names: String,
    pub orcid: Option<String>,
    pub email: Option<String>,
    pub affiliation: Option<String>,
}

/// The citation file.
#[derive(Debug, Clone)]
pub struct CitationCff {
    pub cff_version: String,
    pub title: String,
    pub cff_type: String,
    pub authors: Vec<CffAuthor>,
    pub version: Option<String>,
    pub license: Option<String>,
    pub date_released: Option<String>,
    pub repository_code: Option<String>,
    pub abstract_text: Option<String>,
    pub keywords: Vec<String>,
}

/// The type of work that a citation file describes unless it says
/// otherwise.
pub fn default_type() -> (r: String)
    ensures
        r@ == "software"@,
{
    String::from_str("software")
}

} // verus!
