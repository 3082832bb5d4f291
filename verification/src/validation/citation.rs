//! The citation check: required fields, authors and their identifiers, and
//! the version against the tag of the checkout.

use crate::pattern::{regex_matches, regex_valid, Pattern};
use crate::project::{CitationSource, Project};
use crate::report::{failed, passed, Finding, Report, Status};
use crate::text::{decimal, decimal_text, optional_text, same_text};
use crate::yaml::{yaml_count, yaml_error, yaml_has, yaml_item_text, yaml_text, Document};
use vstd::prelude::*;
use vstd::string::*;

verus! {

/// The pattern of an author identifier: the ORCID address with four groups
/// of four digits `0` to `9`, the last character such a digit or `X`.
pub const ORCID_PATTERN: &'static str =
    "^https://orcid\\.org/[0-9]{4}-[0-9]{4}-[0-9]{4}-[0-9]{3}[0-9X]$";

/// What the check reads of one author.
#[derive(Debug, Clone)]
pub struct AuthorEntry {
    pub family_names: Option<String>,
    pub orcid: Option<String>,
}

/// What the check reads of a citation document. A text field is `None`
/// where the document has no such key or holds something other than a
/// string under it; `authors` is `None` where it holds no sequence.
#[derive(Debug, Clone)]
pub struct CitationDoc {
    pub cff_version: Option<String>,
    pub title: Option<String>,
    pub authors: Option<Vec<AuthorEntry>>,
    pub version: Option<String>,
    pub license: Option<String>,
    /// The key is there, whatever stands under it.
    pub date_released: bool,
}

/// What an `AuthorEntry` stands for.
pub struct AuthorModel {
    pub family_names: Option<Seq<char>>,
    pub orcid: Option<Seq<char>>,
}

/// What a `CitationDoc` stands for.
pub struct CitationModel {
    pub cff_version: Option<Seq<char>>,
    pub title: Option<Seq<char>>,
    pub authors: Option<Seq<AuthorModel>>,
    pub version: Option<Seq<char>>,
    pub license: Option<Seq<char>>,
    pub date_released: bool,
}

impl View for AuthorEntry {
    type V = AuthorModel;

    open spec fn view(&self) -> AuthorModel {
        AuthorModel {
            family_names: optional_text(self.family_names),
            orcid: optional_text(self.orcid),
        }
    }
}

impl View for CitationDoc {
    type V = CitationModel;

    open spec fn view(&self) -> CitationModel {
        CitationModel {
            cff_version: optional_text(self.cff_version),
            title: optional_text(self.title),
            authors: match self.authors {
                Some(list) => Some(Seq::new(list@.len(), |i: int| list@[i]@)),
                None => None,
            },
            version: optional_text(self.version),
            license: optional_text(self.license),
            date_released: self.date_released,
        }
    }
}

/// The author at `index` of the document that `source` parses to.
pub open spec fn parsed_author(source: Seq<char>, index: nat) -> AuthorModel {
    AuthorModel {
        family_names: yaml_item_text(source, "authors"@, index, "family-names"@),
        orcid: yaml_item_text(source, "authors"@, index, "orcid"@),
    }
}

/// What the check reads of the document that `source` parses to.
pub open spec fn parsed_document(source: Seq<char>) -> CitationModel {
    CitationModel {
        cff_version: yaml_text(source, "cff-version"@),
        title: yaml_text(source, "title"@),
        authors: match yaml_count(source, "authors"@) {
            Some(n) => Some(Seq::new(n, |i: int| parsed_author(source, i as nat))),
            None => None,
        },
        version: yaml_text(source, "version"@),
        license: yaml_text(source, "license"@),
        date_released: yaml_has(source, "date-released"@),
    }
}

/// The identifier matches the ORCID pattern.
pub open spec fn orcid_well_formed(text: Seq<char>) -> bool {
    regex_valid(ORCID_PATTERN@) && regex_matches(ORCID_PATTERN@, text)
}

/// The finding on a field that has to be there.
pub open spec fn presence_finding(present: bool, name: Seq<char>) -> Finding {
    if present {
        passed("Citation"@, name + " present"@)
    } else {
        failed("Citation"@, name + " missing"@)
    }
}

/// The findings on the author at `position` (counted from one): a failure
/// without family names, and for an identifier a pass or a failure that
/// quotes it.
pub open spec fn author_findings(position: nat, author: AuthorModel, orcid_ok: bool) -> Seq<
    Finding,
> {
    let name = if author.family_names is None {
        seq![failed("Citation"@, "Author "@ + decimal(position) + " missing family-names"@)]
    } else {
        Seq::empty()
    };
    let identifier = match author.orcid {
        Some(orcid) => if orcid_ok {
            seq![passed("Citation"@, "Author "@ + decimal(position) + " ORCID valid"@)]
        } else {
            seq![
                failed(
                    "Citation"@,
                    "Author "@ + decimal(position) + " ORCID invalid: "@ + orcid,
                ),
            ]
        },
        None => Seq::empty(),
    };
    name + identifier
}

/// Whether the identifier of an author, if there is one, is well formed.
pub open spec fn author_orcid_ok(author: AuthorModel) -> bool {
    match author.orcid {
        Some(orcid) => orcid_well_formed(orcid),
        None => false,
    }
}

/// The findings on each author, in order.
pub open spec fn author_lines(authors: Seq<AuthorModel>) -> Seq<Finding>
    decreases authors.len(),
{
    if authors.len() == 0 {
        Seq::empty()
    } else {
        author_lines(authors.drop_last()) + author_findings(
            authors.len(),
            authors.last(),
            author_orcid_ok(authors.last()),
        )
    }
}

/// The findings on the author list: a failure without authors, else a pass
/// with their number and the findings on each.
pub open spec fn authors_findings(authors: Option<Seq<AuthorModel>>) -> Seq<Finding> {
    match authors {
        Some(list) => if list.len() > 0 {
            seq![passed("Citation"@, decimal(list.len()) + " author(s) found"@)] + author_lines(
                list,
            )
        } else {
            seq![failed("Citation"@, "No authors listed"@)]
        },
        None => seq![failed("Citation"@, "No authors listed"@)],
    }
}

/// The findings on the version. Without an expected version there is none:
/// the check is not made.
pub open spec fn version_findings(version: Option<Seq<char>>, expected: Option<Seq<char>>)
    -> Seq<Finding> {
    match expected {
        None => Seq::empty(),
        Some(wanted) => match version {
            Some(found) => if found == wanted {
                seq![passed("Citation"@, "version matches git tag ("@ + found + ")"@)]
            } else {
                seq![
                    failed(
                        "Citation"@,
                        "version '"@ + found + "' does not match git tag '"@ + wanted + "'"@,
                    ),
                ]
            },
            None => seq![failed("Citation"@, "version missing"@)],
        },
    }
}

/// The version that is expected, as text.
pub open spec fn wanted(expected: Option<&str>) -> Option<Seq<char>> {
    match expected {
        Some(version) => Some(version@),
        None => None,
    }
}

/// Everything the check reports on a document that parsed.
pub open spec fn document_findings(doc: CitationModel, expected: Option<Seq<char>>) -> Seq<
    Finding,
> {
    seq![
        presence_finding(doc.cff_version is Some, "cff-version"@),
        presence_finding(doc.title is Some, "title"@),
    ] + authors_findings(doc.authors) + version_findings(doc.version, expected) + seq![
        presence_finding(doc.license is Some, "license"@),
        presence_finding(doc.date_released, "date-released"@),
    ]
}

/// With an expected version the version check gives exactly one finding: a
/// pass where the document names that very version, a failure where it
/// names another or none. Without one it gives none.
pub proof fn lemma_version_check(version: Option<Seq<char>>, expected: Option<Seq<char>>)
    ensures
        expected is None ==> version_findings(version, expected).len() == 0,
        expected is Some ==> version_findings(version, expected).len() == 1,
        expected is Some ==> (version_findings(version, expected)[0].status == Status::Pass <==> (
        version matches Some(found) && found == expected.unwrap())),
        expected is Some ==> (version_findings(version, expected)[0].status == Status::Fail <==> !(
        version matches Some(found) && found == expected.unwrap())),
{
}

/// Whether an author identifier matches the ORCID pattern.
pub fn is_orcid(text: &str) -> (r: bool)
    ensures
        r == orcid_well_formed(text@),
{
    match Pattern::compile(ORCID_PATTERN) {
        Some(pattern) => pattern.is_match(text),
        None => false,
    }
}

/// Reads a citation document: parses the text and takes from it what the
/// check looks at. Fails exactly where the text is no YAML document, with
/// the parser's message.
pub fn read_document(content: &str) -> (r: Result<CitationDoc, String>)
    ensures
        match r {
            Ok(doc) => yaml_error(content@) is None && doc@ == parsed_document(content@),
            Err(message) => yaml_error(content@) == Some(message@),
        },
{
    let document = match Document::parse(content) {
        Ok(document) => document,
        Err(message) => {
            return Err(message);
        },
    };
    let authors = match document.count("authors") {
        Some(n) => {
            let mut entries: Vec<AuthorEntry> = Vec::new();
            let mut i: usize = 0;
            while i < n
                invariant
                    i <= n,
                    document@ == content@,
                    entries@.len() == i,
                    forall|k: int|
                        0 <= k < i ==> (#[trigger] entries@[k])@ == parsed_author(
                            content@,
                            k as nat,
                        ),
                decreases n - i,
            {
                entries.push(
                    AuthorEntry {
                        family_names: document.item_text("authors", i, "family-names"),
                        orcid: document.item_text("authors", i, "orcid"),
                    },
                );
                i += 1;
            }
            Some(entries)
        },
        None => None,
    };
    let doc = CitationDoc {
        cff_version: document.text("cff-version"),
        title: document.text("title"),
        authors,
        version: document.text("version"),
        license: document.text("license"),
        date_released: document.has("date-released"),
    };
    proof {
        if doc.authors is Some {
            assert(doc@.authors.unwrap() =~= parsed_document(content@).authors.unwrap());
        }
        assert(doc@ == parsed_document(content@));
    }
    Ok(doc)
}

/// Appends the finding on a field that has to be there.
pub fn check_presence(present: bool, name: &str, report: &mut Report)
    ensures
        final(report)@ == old(report)@.push(presence_finding(present, name@)),
{
    let mut message = String::from_str(name);
    if present {
        message.append(" present");
        report.pass("Citation", message.as_str());
    } else {
        message.append(" missing");
        report.fail("Citation", message.as_str());
    }
}

/// Appends the findings on one author, given whether its identifier is well
/// formed.
pub fn check_author(position: usize, author: &AuthorEntry, orcid_ok: bool, report: &mut Report)
    ensures
        final(report)@ == old(report)@ + author_findings(position as nat, author@, orcid_ok),
{
    let number = decimal_text(position as u64);
    if author.family_names.is_none() {
        let mut message = String::from_str("Author ");
        message.append(number.as_str());
        message.append(" missing family-names");
        report.fail("Citation", message.as_str());
    }
    let ghost middle = report@;
    match &author.orcid {
        Some(orcid) => {
            let mut message = String::from_str("Author ");
            message.append(number.as_str());
            if orcid_ok {
                message.append(" ORCID valid");
                report.pass("Citation", message.as_str());
            } else {
                message.append(" ORCID invalid: ");
                message.append(orcid.as_str());
                report.fail("Citation", message.as_str());
            }
        },
        None => {},
    }
    assert(report@ =~= old(report)@ + author_findings(position as nat, author@, orcid_ok));
}

/// Appends the findings on the version of the document against the version
/// that the tag gave. Without an expected version nothing is appended.
pub fn check_version(version: &Option<String>, expected: Option<&str>, report: &mut Report)
    ensures
        final(report)@ == old(report)@ + version_findings(optional_text(*version), wanted(expected)),
{
    let target = match expected {
        Some(target) => target,
        None => {
            assert(report@ =~= old(report)@ + version_findings(optional_text(*version), wanted(expected)));
            return ;
        },
    };
    match version {
        Some(found) => {
            if same_text(found.as_str(), target) {
                let mut message = String::from_str("version matches git tag (");
                message.append(found.as_str());
                message.append(")");
                report.pass("Citation", message.as_str());
            } else {
                let mut message = String::from_str("version '");
                message.append(found.as_str());
                message.append("' does not match git tag '");
                message.append(target);
                message.append("'");
                report.fail("Citation", message.as_str());
            }
        },
        None => {
            report.fail("Citation", "version missing");
        },
    }
    assert(report@ =~= old(report)@ + version_findings(optional_text(*version), wanted(expected)));
}

/// The models of an optional list of authors.
pub open spec fn author_models(authors: Option<Vec<AuthorEntry>>) -> Option<Seq<AuthorModel>> {
    match authors {
        Some(list) => Some(Seq::new(list@.len(), |i: int| list@[i]@)),
        None => None,
    }
}

/// Appends the findings on the author list.
pub fn check_authors(authors: &Option<Vec<AuthorEntry>>, report: &mut Report)
    ensures
        final(report)@ == old(report)@ + authors_findings(author_models(*authors)),
{
    let list = match authors {
        Some(list) => list,
        None => {
            report.fail("Citation", "No authors listed");
            assert(report@ =~= old(report)@ + authors_findings(author_models(*authors)));
            return ;
        },
    };
    if list.len() == 0 {
        report.fail("Citation", "No authors listed");
        assert(report@ =~= old(report)@ + authors_findings(author_models(*authors)));
        return ;
    }
    let mut message = decimal_text(list.len() as u64);
    message.append(" author(s) found");
    report.pass("Citation", message.as_str());
    let ghost base = report@;
    let ghost models = Seq::new(list@.len(), |i: int| list@[i]@);
    let pattern = Pattern::compile(ORCID_PATTERN);
    let mut i: usize = 0;
    while i < list.len()
        invariant
            i <= list.len(),
            pattern.is_some() == regex_valid(ORCID_PATTERN@),
            pattern matches Some(p) ==> p@ == ORCID_PATTERN@,
            models == Seq::new(list@.len(), |i: int| list@[i]@),
            report@ == base + author_lines(models.take(i as int)),
        decreases list.len() - i,
    {
        proof {
            assert(models.take(i + 1).drop_last() =~= models.take(i as int));
            assert(models.take(i + 1).last() == list@[i as int]@);
        }
        let author = &list[i];
        let orcid_ok = match &author.orcid {
            Some(orcid) => match &pattern {
                Some(p) => p.is_match(orcid.as_str()),
                None => false,
            },
            None => false,
        };
        check_author(i + 1, author, orcid_ok, report);
        assert(report@ =~= base + author_lines(models.take(i + 1)));
        i += 1;
    }
    assert(models.take(i as int) =~= models);
    assert(report@ =~= old(report)@ + authors_findings(author_models(*authors)));
}

/// Checks a document that parsed: version identifier and title, the
/// authors, the version against `expected_version` where one is given,
/// license and release date.
pub fn check_document(doc: &CitationDoc, expected_version: Option<&str>, report: &mut Report)
    ensures
        final(report)@ == old(report)@ + document_findings(doc@, wanted(expected_version)),
{
    check_presence(doc.cff_version.is_some(), "cff-version", report);
    check_presence(doc.title.is_some(), "title", report);
    check_authors(&doc.authors, report);
    check_version(&doc.version, expected_version, report);
    check_presence(doc.license.is_some(), "license", report);
    check_presence(doc.date_released, "date-released", report);
    assert(report@ =~= old(report)@ + document_findings(doc@, wanted(expected_version)));
}

/// Everything the check reports on the citation document of a project.
pub open spec fn citation_findings(source: CitationSource, expected: Option<Seq<char>>) -> Seq<
    Finding,
> {
    match source {
        CitationSource::Missing => seq![failed("Citation"@, "CITATION.cff not found"@)],
        CitationSource::Unreadable(why) => seq![
            failed("Citation"@, "Cannot read CITATION.cff: "@ + why@),
        ],
        CitationSource::Content(content) => match yaml_error(content@) {
            Some(why) => seq![failed("Citation"@, "Invalid YAML: "@ + why)],
            None => document_findings(parsed_document(content@), expected),
        },
    }
}

/// Checks the citation document of a project. A missing or unreadable
/// document is one failure; so is one that does not parse, and its fields are
/// then not looked at. Otherwise the findings are those of `check_document`
/// on the document that was read.
pub fn validate(project: &Project, expected_version: Option<&str>, report: &mut Report)
    ensures
        final(report)@ == old(report)@ + citation_findings(
            project.citation,
            wanted(expected_version),
        ),
{
    match &project.citation {
        CitationSource::Missing => {
            report.fail("Citation", "CITATION.cff not found");
        },
        CitationSource::Unreadable(why) => {
            let mut message = String::from_str("Cannot read CITATION.cff: ");
            message.append(why.as_str());
            report.fail("Citation", message.as_str());
        },
        CitationSource::Content(content) => {
            match read_document(content.as_str()) {
                Ok(doc) => {
                    check_document(&doc, expected_version, report);
                },
                Err(why) => {
                    let mut message = String::from_str("Invalid YAML: ");
                    message.append(why.as_str());
                    report.fail("Citation", message.as_str());
                },
            }
        },
    }
    assert(report@ =~= old(report)@ + citation_findings(
        project.citation,
        wanted(expected_version),
    ));
}

} // verus!
