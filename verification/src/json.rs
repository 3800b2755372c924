//! Reading the JSON answer that carries a page of publications.
use vstd::prelude::*;

use serde_json::Value;

verus! {

/// What `serde_json` reads from `text` for the member `key`: `None` where `text`
/// is not one JSON value, `Some(None)` where the value has no member `key` whose
/// value is a JSON string, and otherwise that string.
pub uninterp spec fn json_string_member(text: Seq<char>, key: Seq<char>) -> Option<
    Option<Seq<char>>,
>;

/// Parses `text` with `serde_json::from_str::<Value>` (dropping its error), looks
/// the member up with `Value::get` and reads it with `Value::as_str`. The result
/// is taken to be a function of the two texts alone, named `json_string_member`;
/// what it is for given texts is not stated.
#[verifier::external_body]
fn read_string_member(text: &str, key: &str) -> (r: Option<Option<String>>)
    ensures
        r.deep_view() == json_string_member(text@, key@),
{
    let value: Value = serde_json::from_str(text).ok()?;
    Some(value.get(key).and_then(Value::as_str).map(str::to_string))
}

/// The answer that a member read gives: the markup, `ConvertJson` where the text
/// was not JSON, `ReadJson` where it had no such text member.
pub open spec fn markup_result(member: Option<Option<Seq<char>>>) -> Result<Seq<char>, crate::error::Error> {
    match member {
        None => Err(crate::error::Error::ConvertJson),
        Some(None) => Err(crate::error::Error::ReadJson),
        Some(Some(markup)) => Ok(markup),
    }
}

/// Whether a result holds the markup or the error that `expected` describes.
pub open spec fn is_markup_result(
    r: Result<String, crate::error::Error>,
    expected: Result<Seq<char>, crate::error::Error>,
) -> bool {
    match (r, expected) {
        (Ok(markup), Ok(text)) => markup@ == text,
        (Err(e), Err(err)) => e == err,
        _ => false,
    }
}

/// The markup that a member read gives: the text itself, `ConvertJson` where the
/// answer was not JSON, `ReadJson` where it had no such text member.
pub fn markup_from_member(member: Option<Option<String>>) -> (r: Result<String, crate::error::Error>)
    ensures
        is_markup_result(r, markup_result(member.deep_view())),
{
    match member {
        None => Err(crate::error::Error::ConvertJson),
        Some(None) => Err(crate::error::Error::ReadJson),
        Some(Some(markup)) => Ok(markup),
    }
}

/// The markup of a page of publications, carried as the text member `B` of the
/// JSON answer: `ConvertJson` where the answer is not JSON, `ReadJson` where it
/// has no such member.
pub fn publication_page_markup(response: &str) -> (r: Result<String, crate::error::Error>)
    ensures
        is_markup_result(r, markup_result(json_string_member(response@, "B"@))),
{
    let member = read_string_member(response, "B");
    markup_from_member(member)
}

} // verus!
