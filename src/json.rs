//! What this library takes from serde_json, behind contracts.
use vstd::prelude::*;

verus! {

#[verifier::external_type_specification]
#[verifier::external_body]
pub struct ExJsonValue(serde_json::Value);

/// Whether serde_json reads `text` as one JSON document.
pub uninterp spec fn is_json(text: Seq<char>) -> bool;

/// The string that JSON Pointer `pointer` reaches in the document that
/// serde_json reads from `text`; `None` where nothing is there or the value
/// reached is not a string.
pub uninterp spec fn json_str_at(text: Seq<char>, pointer: Seq<char>) -> Option<Seq<char>>;

/// The JSON string literal that serde_json writes for `s` (quoted, escaped).
pub uninterp spec fn json_quoted(s: Seq<char>) -> Seq<char>;

/// A parsed JSON document together with the text it was read from.
///
/// `value` is always the document serde_json read from `text`: the fields
/// are private and `parse` is the only constructor.
pub(crate) struct JsonDoc {
    text: String,
    value: serde_json::Value,
}

/// Relies on serde_json::from_str::<Value>: it succeeds exactly when the
/// text is one JSON document.
#[verifier::external_body]
fn parse_value(text: &str) -> (r: Option<serde_json::Value>)
    ensures
        r.is_some() == is_json(text@),
{
    serde_json::from_str::<serde_json::Value>(text).ok()
}

impl JsonDoc {
    pub closed spec fn source(&self) -> Seq<char> {
        self.text@
    }

    pub(crate) fn parse(text: &str) -> (r: Option<JsonDoc>)
        ensures
            r.is_some() == is_json(text@),
            r matches Some(d) ==> d.source() == text@,
    {
        match parse_value(text) {
            Some(value) => Some(JsonDoc { text: String::from_str(text), value }),
            None => None,
        }
    }

    /// Relies on serde_json::Value::pointer and Value::as_str: the string at
    /// a JSON Pointer of the document read from `self.source()`.
    #[verifier::external_body]
    pub(crate) fn str_at(&self, pointer: &str) -> (r: Option<String>)
        ensures
            r matches Some(s) ==> json_str_at(self.source(), pointer@) == Some(s@),
            r is None ==> json_str_at(self.source(), pointer@) is None,
    {
        self.value.pointer(pointer).and_then(serde_json::Value::as_str).map(String::from)
    }
}

/// Relies on serde_json::to_string for a `str`: it writes the quoted,
/// escaped literal into memory, where writing cannot fail.
#[verifier::external_body]
pub(crate) fn quote(s: &str) -> (r: String)
    ensures
        r@ == json_quoted(s@),
{
    match serde_json::to_string(s) {
        Ok(q) => q,
        Err(_) => String::new(),
    }
}

} // verus!
