//! Regular expressions, as the `regex` crate implements them.
//!
//! Nothing in this file is proved. It declares the compiled expression,
//! gives names to what the engine computes, and wraps the three calls the
//! validators make. What a pattern means is the engine's business; the
//! validators' contracts speak of it through the names below.

use vstd::prelude::*;

verus! {

#[verifier::external_type_specification]
#[verifier::external_body]
pub struct ExRegex(regex::Regex);

/// Whether `regex::Regex::new` accepts `source` as a pattern.
pub uninterp spec fn regex_valid(source: Seq<char>) -> bool;

/// Whether the expression compiled from `source` finds a match somewhere in
/// `text` (`regex::Regex::is_match`).
pub uninterp spec fn regex_matches(source: Seq<char>, text: Seq<char>) -> bool;

/// The part of `text` that capture group `group` of the leftmost match took
/// (`regex::Regex::captures`, then `Captures::get`); `None` without a match
/// or where the group took no part in it.
pub uninterp spec fn regex_group(source: Seq<char>, text: Seq<char>, group: nat) -> Option<
    Seq<char>,
>;

/// A compiled expression together with the text it was compiled from.
///
/// The only way to make one is `Pattern::compile`, so the engine held here is
/// always the one that `regex::Regex::new` built for `source`.
pub struct Pattern {
    source: String,
    engine: regex::Regex,
}

impl View for Pattern {
    type V = Seq<char>;

    closed spec fn view(&self) -> Seq<char> {
        self.source@
    }
}

impl Pattern {
    /// Calls `regex::Regex::new`. Claims that it succeeds exactly on the
    /// sources that `regex_valid` names, and that the pattern remembers its
    /// source.
    #[verifier::external_body]
    pub(crate) fn compile(source: &str) -> (r: Option<Pattern>)
        ensures
            r.is_some() == regex_valid(source@),
            r matches Some(p) ==> p@ == source@,
    {
        regex::Regex::new(source).ok().map(|engine| Pattern { source: source.to_string(), engine })
    }

    /// Calls `regex::Regex::is_match`. Claims that the answer is the one
    /// `regex_matches` names for this pattern's source and `text`.
    #[verifier::external_body]
    pub(crate) fn is_match(&self, text: &str) -> (r: bool)
        ensures
            r == regex_matches(self@, text@),
    {
        self.engine.is_match(text)
    }

    /// Calls `regex::Regex::captures` and `Captures::get`, and copies the
    /// text of the group. Claims that the result is the one `regex_group`
    /// names.
    #[verifier::external_body]
    pub(crate) fn group(&self, text: &str, group: usize) -> (r: Option<String>)
        ensures
            r.is_some() == regex_group(self@, text@, group as nat).is_some(),
            r matches Some(s) ==> regex_group(self@, text@, group as nat) == Some(s@),
    {
        self.engine.captures(text).and_then(|c| c.get(group)).map(|m| m.as_str().to_string())
    }
}

} // verus!
