//! What publishing decides: whether the user agreed, which file is the
//! archive, and how the readme gets its badge.

use crate::text::{
    chars_contain, chars_end_with, chars_of, contains, decimal, decimal_text, ends_with,
    first_newline, newline_position, same_range, trim, trim_bounds,
};
use vstd::prelude::*;
use vstd::string::*;

verus! {

/// The answer, trimmed, is `y` in either case.
pub open spec fn agrees_to_draft(answer: Seq<char>) -> bool {
    trim(answer) == seq!['y'] || trim(answer) == seq!['Y']
}

/// Whether an answer agrees to a draft on the production archive.
pub fn confirms_draft(answer: &str) -> (r: bool)
    ensures
        r == agrees_to_draft(answer@),
{
    let chars = chars_of(answer);
    assert(chars@.subrange(0, chars@.len() as int) =~= chars@);
    let (lo, hi) = trim_bounds(&chars, 0, chars.len());
    let ghost entry = chars@.subrange(lo as int, hi as int);
    if hi - lo == 1 {
        assert(entry =~= seq![chars@[lo as int]]);
        assert(seq!['y'][0] == 'y' && seq!['Y'][0] == 'Y');
        chars[lo] == 'y' || chars[lo] == 'Y'
    } else {
        assert(entry.len() != 1);
        assert(seq!['y'].len() == 1 && seq!['Y'].len() == 1);
        false
    }
}

/// Whether an answer agrees to publishing for good: trimmed, it is the word
/// `publish`.
pub fn confirms_publish(answer: &str) -> (r: bool)
    ensures
        r == (trim(answer@) == "publish"@),
{
    let chars = chars_of(answer);
    assert(chars@.subrange(0, chars@.len() as int) =~= chars@);
    let (lo, hi) = trim_bounds(&chars, 0, chars.len());
    let word = chars_of("publish");
    assert(word@.subrange(0, word@.len() as int) =~= word@);
    same_range(&chars, lo, hi, &word, 0, word.len())
}

/// The first of the names that ends in `.tar.gz`.
pub fn find_archive(names: &Vec<String>) -> (r: Option<usize>)
    ensures
        match r {
            Some(i) => i < names@.len() && ends_with(names@[i as int]@, ".tar.gz"@) && forall|
                k: int,
            |
                0 <= k < i ==> !ends_with(names@[k]@, ".tar.gz"@),
            None => forall|k: int| 0 <= k < names@.len() ==> !ends_with(names@[k]@, ".tar.gz"@),
        },
{
    let ending = chars_of(".tar.gz");
    let mut i: usize = 0;
    while i < names.len()
        invariant
            i <= names.len(),
            ending@ == ".tar.gz"@,
            forall|k: int| 0 <= k < i ==> !ends_with(names@[k]@, ".tar.gz"@),
        decreases names.len() - i,
    {
        let name = chars_of(names[i].as_str());
        if chars_end_with(&name, &ending) {
            return Some(i);
        }
        i += 1;
    }
    None
}

/// The identifier that is shown for a deposit: its DOI, or `pending`.
pub fn doi_or_pending(doi: &Option<String>) -> (r: String)
    ensures
        r@ == match *doi {
            Some(text) => text@,
            None => "pending"@,
        },
{
    match doi {
        Some(text) => text.clone(),
        None => String::from_str("pending"),
    }
}

/// The address that resolves a DOI.
pub fn doi_link(doi: &str) -> (r: String)
    ensures
        r@ == "https://doi.org/"@ + doi@,
{
    let mut link = String::from_str("https://doi.org/");
    link.append(doi);
    link
}

/// The page of a deposit on the archive's site.
pub fn deposit_page(web_base: &str, deposition: u64) -> (r: String)
    ensures
        r@ == web_base@ + "/deposit/"@ + decimal(deposition as nat),
{
    let mut page = String::from_str(web_base);
    page.append("/deposit/");
    page.append(decimal_text(deposition).as_str());
    page
}

/// The badge of a DOI in Markdown.
pub open spec fn badge(doi: Seq<char>, doi_url: Seq<char>) -> Seq<char> {
    "[![DOI](https://zenodo.org/badge/DOI/"@ + doi + ".svg)]("@ + doi_url + ")"@
}

/// The readme speaks of a DOI at the archive already.
pub open spec fn has_badge(content: Seq<char>) -> bool {
    contains(content, "doi.org"@) && contains(content, "zenodo"@)
}

/// The first line of the content is a heading, and a line feed ends it.
pub open spec fn opens_with_heading(content: Seq<char>) -> bool {
    first_newline(content) < content.len() && first_newline(content) > 0 && content[0] == '#'
}

/// The readme with the badge: after the first line where that is a
/// heading, else before everything.
pub open spec fn badged(content: Seq<char>, doi: Seq<char>, doi_url: Seq<char>) -> Seq<char> {
    if opens_with_heading(content) {
        let end = first_newline(content);
        content.take(end) + "\n\n"@ + badge(doi, doi_url) + "\n"@ + content.skip(end + 1)
    } else {
        badge(doi, doi_url) + "\n\n"@ + content
    }
}

/// The badge of a DOI in Markdown.
pub fn badge_markdown(doi: &str, doi_url: &str) -> (r: String)
    ensures
        r@ == badge(doi@, doi_url@),
{
    let mut text = String::from_str("[![DOI](https://zenodo.org/badge/DOI/");
    text.append(doi);
    text.append(".svg)](");
    text.append(doi_url);
    text.append(")");
    text
}

/// The readme with a DOI badge added, or `None` where it speaks of a DOI at
/// the archive already. The badge goes after the first line where that is a
/// heading, else before everything.
pub fn with_doi_badge(content: &str, doi: &str, doi_url: &str) -> (r: Option<String>)
    ensures
        r.is_none() == has_badge(content@),
        r matches Some(text) ==> text@ == badged(content@, doi@, doi_url@),
{
    let chars = chars_of(content);
    let resolver = chars_of("doi.org");
    let archive = chars_of("zenodo");
    if chars_contain(&chars, &resolver) && chars_contain(&chars, &archive) {
        return None;
    }
    let badge = badge_markdown(doi, doi_url);
    let end = newline_position(&chars);
    if end < chars.len() && end > 0 && chars[0] == '#' {
        let mut text = content.substring_char(0, end).to_string();
        assert(text@ =~= content@.take(end as int));
        text.append("\n\n");
        text.append(badge.as_str());
        text.append("\n");
        let rest = content.substring_char(end + 1, chars.len());
        assert(rest@ =~= content@.skip(end + 1));
        text.append(rest);
        Some(text)
    } else {
        let mut text = badge;
        text.append("\n\n");
        text.append(content);
        Some(text)
    }
}

} // verus!
