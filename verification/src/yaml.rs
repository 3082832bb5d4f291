//! YAML documents, as the `serde_yaml` crate reads them.
//!
//! Nothing in this file is proved. It gives names to what the crate finds in
//! a text, and wraps the calls that look a document up. What YAML means is
//! the crate's business; the contracts of the citation check speak of it
//! through the names below.

use vstd::prelude::*;

verus! {

#[verifier::external_type_specification]
#[verifier::external_body]
pub struct ExValue(serde_yaml::Value);

/// The message with which `serde_yaml::from_str` refuses `source` as a
/// loosely typed value; `None` where it accepts it.
pub uninterp spec fn yaml_error(source: Seq<char>) -> Option<Seq<char>>;

/// Whether the document that `source` parses to has an entry under `key`
/// (`Value::get` with a string key).
pub uninterp spec fn yaml_has(source: Seq<char>, key: Seq<char>) -> bool;

/// The string under `key` in the document that `source` parses to
/// (`Value::get`, then `Value::as_str`); `None` without such an entry or
/// where it holds something other than a string.
pub uninterp spec fn yaml_text(source: Seq<char>, key: Seq<char>) -> Option<Seq<char>>;

/// The length of the sequence under `key` in the document that `source`
/// parses to (`Value::get`, then `Value::as_sequence`); `None` without such
/// an entry or where it holds something other than a sequence.
pub uninterp spec fn yaml_count(source: Seq<char>, key: Seq<char>) -> Option<nat>;

/// The string under `field` in item `index` of the sequence under `key` in
/// the document that `source` parses to; `None` where any step of the way
/// is missing or of another kind.
pub uninterp spec fn yaml_item_text(
    source: Seq<char>,
    key: Seq<char>,
    index: nat,
    field: Seq<char>,
) -> Option<Seq<char>>;

/// A parsed document together with the text it was parsed from.
///
/// The only way to make one is `Document::parse`, so the value held here is
/// always the one that `serde_yaml::from_str` gave for `source`.
pub struct Document {
    source: String,
    root: serde_yaml::Value,
}

impl View for Document {
    type V = Seq<char>;

    closed spec fn view(&self) -> Seq<char> {
        self.source@
    }
}

impl Document {
    /// Calls `serde_yaml::from_str` for a loosely typed value. Claims that
    /// it fails exactly on the texts for which `yaml_error` names a
    /// message, with that message, and that the document remembers its
    /// text.
    #[verifier::external_body]
    pub(crate) fn parse(source: &str) -> (r: Result<Document, String>)
        ensures
            match r {
                Ok(document) => document@ == source@ && yaml_error(source@) is None,
                Err(message) => yaml_error(source@) == Some(message@),
            },
    {
        serde_yaml::from_str::<serde_yaml::Value>(source)
            .map(|root| Document { source: source.to_string(), root })
            .map_err(|e| e.to_string())
    }

    /// Calls `Value::get` with a string key. Claims that the answer is the
    /// one `yaml_has` names.
    #[verifier::external_body]
    pub(crate) fn has(&self, key: &str) -> (r: bool)
        ensures
            r == yaml_has(self@, key@),
    {
        self.root.get(key).is_some()
    }

    /// Calls `Value::get` and `Value::as_str`, and copies the string.
    /// Claims that the result is the one `yaml_text` names.
    #[verifier::external_body]
    pub(crate) fn text(&self, key: &str) -> (r: Option<String>)
        ensures
            r.is_some() == yaml_text(self@, key@).is_some(),
            r matches Some(s) ==> yaml_text(self@, key@) == Some(s@),
    {
        self.root.get(key).and_then(|v| v.as_str()).map(|s| s.to_string())
    }

    /// Calls `Value::get` and `Value::as_sequence`. Claims that the length
    /// is the one `yaml_count` names.
    #[verifier::external_body]
    pub(crate) fn count(&self, key: &str) -> (r: Option<usize>)
        ensures
            r.is_some() == yaml_count(self@, key@).is_some(),
            r matches Some(n) ==> yaml_count(self@, key@) == Some(n as nat),
    {
        self.root.get(key).and_then(|v| v.as_sequence()).map(|items| items.len())
    }

    /// Calls `Value::get` and `Value::as_sequence`, takes item `index`, and
    /// calls `Value::get` and `Value::as_str` on it. Claims that the result
    /// is the one `yaml_item_text` names.
    #[verifier::external_body]
    pub(crate) fn item_text(&self, key: &str, index: usize, field: &str) -> (r: Option<String>)
        ensures
            r.is_some() == yaml_item_text(self@, key@, index as nat, field@).is_some(),
            r matches Some(s) ==> yaml_item_text(self@, key@, index as nat, field@) == Some(s@),
    {
        let items = self.root.get(key).and_then(|v| v.as_sequence());
        let item = items.and_then(|list| list.get(index));
        item.and_then(|v| v.get(field)).and_then(|v| v.as_str()).map(|s| s.to_string())
    }
}

} // verus!
