//! The deposit record: what the archive is told about a release.

use crate::config::Config;
use crate::metadata::citation::{CffAuthor, CitationCff};
use crate::text::{chars_of, chars_start_with, copy_of, optional_text, starts_with};
use vstd::prelude::*;
use vstd::string::*;

verus! {

/// The address that an author identifier starts with.
pub const ORCID_PREFIX: &'static str = "https://orcid.org/";

/// A deposit record.
#[derive(Debug)]
pub struct ZenodoDeposit {
    pub metadata: ZenodoMetadata,
}

/// The metadata of a deposit.
#[derive(Debug)]
pub struct ZenodoMetadata {
    pub title: String,
    pub description: Option<String>,
    pub creators: Vec<ZenodoCreator>,
    pub keywords: Vec<String>,
    pub license: Option<String>,
    pub version: Option<String>,
    pub publication_date: Option<String>,
    pub upload_type: String,
    pub language: Option<String>,
    pub related_identifiers: Vec<ZenodoRelatedIdentifier>,
}

/// One creator of a deposit.
#[derive(Debug)]
pub struct ZenodoCreator {
    pub name: String,
    pub orcid: Option<String>,
    pub affiliation: Option<String>,
}

/// A link from a deposit to something related.
#[derive(Debug)]
pub struct ZenodoRelatedIdentifier {
    pub identifier: String,
    pub relation: String,
    pub resource_type: Option<String>,
    pub scheme: String,
}

/// The text without `prefix` where it starts with it, else the text.
pub open spec fn without_prefix(text: Seq<char>, prefix: Seq<char>) -> Seq<char> {
    if starts_with(text, prefix) {
        text.skip(prefix.len() as int)
    } else {
        text
    }
}

/// The bare identifier of an author: the identifier without the ORCID
/// address in front.
pub open spec fn bare_orcid(orcid: Option<String>) -> Option<Seq<char>> {
    match orcid {
        Some(text) => Some(without_prefix(text@, ORCID_PREFIX@)),
        None => None,
    }
}

/// The creator stands for the author: the name is family names, comma,
/// given names; the identifier is bare; the affiliation is the author's.
pub open spec fn creator_of(creator: ZenodoCreator, author: CffAuthor) -> bool {
    &&& creator.name@ == author.family_names@ + ", "@ + author.given_names@
    &&& optional_text(creator.orcid) == bare_orcid(author.orcid)
    &&& creator.affiliation == author.affiliation
}

/// The link says that the deposit supplements the software at `url`.
pub open spec fn supplement_to(link: ZenodoRelatedIdentifier, url: String) -> bool {
    &&& link.identifier == url
    &&& link.relation@ == "isSupplementTo"@
    &&& optional_text(link.resource_type) == Some("software"@)
    &&& link.scheme@ == "url"@
}

/// The links of a deposit: one to the repository where the citation file
/// names one, else none.
pub open spec fn links_of(links: Seq<ZenodoRelatedIdentifier>, repository: Option<String>) -> bool {
    match repository {
        Some(url) => links.len() == 1 && supplement_to(links[0], url),
        None => links.len() == 0,
    }
}

/// The identifier without the ORCID address in front.
pub fn strip_orcid_prefix(orcid: &str) -> (r: String)
    ensures
        r@ == without_prefix(orcid@, ORCID_PREFIX@),
{
    let text = chars_of(orcid);
    let prefix = chars_of(ORCID_PREFIX);
    if chars_start_with(&text, &prefix) {
        let bare = orcid.substring_char(prefix.len(), text.len());
        assert(bare@ =~= orcid@.skip(prefix@.len() as int));
        bare.to_string()
    } else {
        orcid.to_string()
    }
}

/// The creator that stands for an author.
pub fn creator_from(author: &CffAuthor) -> (r: ZenodoCreator)
    ensures
        creator_of(r, *author),
{
    let mut name = author.family_names.clone();
    name.append(", ");
    name.append(author.given_names.as_str());
    let orcid = match &author.orcid {
        Some(text) => Some(strip_orcid_prefix(text.as_str())),
        None => None,
    };
    ZenodoCreator { name, orcid, affiliation: copy_of(&author.affiliation) }
}

impl ZenodoDeposit {
    /// The deposit record for a citation file. Title, abstract, keywords,
    /// license, version and release date are taken over; each author
    /// becomes a creator; the repository, where one is named, becomes a
    /// link; the upload is software, in the language of the settings.
    pub fn from_citation(cff: &CitationCff, config: &Config) -> (r: ZenodoDeposit)
        ensures
            r.metadata.title == cff.title,
            r.metadata.description == cff.abstract_text,
            r.metadata.creators@.len() == cff.authors@.len(),
            forall|i: int|
                0 <= i < cff.authors@.len() ==> creator_of(
                    #[trigger] r.metadata.creators@[i],
                    cff.authors@[i],
                ),
            r.metadata.keywords@ == cff.keywords@,
            r.metadata.license == cff.license,
            r.metadata.version == cff.version,
            r.metadata.publication_date == cff.date_released,
            r.metadata.upload_type@ == "software"@,
            r.metadata.language == Some(config.language),
            links_of(r.metadata.related_identifiers@, cff.repository_code),
    {
        let mut creators: Vec<ZenodoCreator> = Vec::new();
        let mut i: usize = 0;
        while i < cff.authors.len()
            invariant
                i <= cff.authors.len(),
                creators@.len() == i,
                forall|k: int| 0 <= k < i ==> creator_of(#[trigger] creators@[k], cff.authors@[k]),
            decreases cff.authors.len() - i,
        {
            creators.push(creator_from(&cff.authors[i]));
            i += 1;
        }
        let mut related_identifiers: Vec<ZenodoRelatedIdentifier> = Vec::new();
        match &cff.repository_code {
            Some(url) => {
                related_identifiers.push(
                    ZenodoRelatedIdentifier {
                        identifier: url.clone(),
                        relation: String::from_str("isSupplementTo"),
                        resource_type: Some(String::from_str("software")),
                        scheme: String::from_str("url"),
                    },
                );
            },
            None => {},
        }
        let mut keywords: Vec<String> = Vec::new();
        let mut k: usize = 0;
        while k < cff.keywords.len()
            invariant
                k <= cff.keywords.len(),
                keywords@ == cff.keywords@.take(k as int),
            decreases cff.keywords.len() - k,
        {
            keywords.push(cff.keywords[k].clone());
            assert(keywords@ =~= cff.keywords@.take(k + 1));
            k += 1;
        }
        assert(cff.keywords@.take(k as int) =~= cff.keywords@);
        ZenodoDeposit {
            metadata: ZenodoMetadata {
                title: cff.title.clone(),
                description: copy_of(&cff.abstract_text),
                creators,
                keywords,
                license: copy_of(&cff.license),
                version: copy_of(&cff.version),
                publication_date: copy_of(&cff.date_released),
                upload_type: String::from_str("software"),
                language: Some(config.language.clone()),
                related_identifiers,
            },
        }
    }
}

} // verus!
