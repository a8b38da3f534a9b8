use vstd::prelude::*;

verus! {

// Each read below is a function of the body text and the keys alone:
// serde_json parses the same text to the same document on every
// machine, and the accessors are pure. The outer `Option` is `None`
// when the body is not JSON; the inner one is `None` when the member
// is missing or not of the asked-for kind.

/// What a string member of the document's top-level object holds.
pub uninterp spec fn spec_string_member(body: Seq<char>, key: Seq<char>) -> Option<
    Option<Seq<char>>,
>;

/// The decimal text of a number member of the top-level object.
pub uninterp spec fn spec_number_member(body: Seq<char>, key: Seq<char>) -> Option<
    Option<Seq<char>>,
>;

/// What a string member of an object one level down holds.
pub uninterp spec fn spec_nested_string_member(
    body: Seq<char>,
    outer: Seq<char>,
    key: Seq<char>,
) -> Option<Option<Seq<char>>>;

/// The elements of an array of strings one level down.
pub uninterp spec fn spec_string_array_member(
    body: Seq<char>,
    outer: Seq<char>,
    key: Seq<char>,
) -> Option<Option<Seq<Seq<char>>>>;

/// The decimal texts of an array of numbers one level down.
pub uninterp spec fn spec_number_array_member(
    body: Seq<char>,
    outer: Seq<char>,
    key: Seq<char>,
) -> Option<Option<Seq<Seq<char>>>>;

/// Relies on serde_json::from_str, Value::get and Value::as_str: the
/// member of the document's top-level object under `key`, read as a
/// string.
#[verifier::external_body]
pub(crate) fn string_member(body: &str, key: &str) -> (r: Option<Option<String>>)
    ensures
        r.deep_view() == spec_string_member(body@, key@),
{
    match serde_json::from_str::<serde_json::Value>(body) {
        Err(_) => None,
        Ok(v) => Some(v.get(key).and_then(|f| f.as_str()).map(str::to_owned)),
    }
}

/// Relies on serde_json::from_str, Value::get and Number's display
/// form: the member of the top-level object under `key`, a number,
/// read as its decimal text.
#[verifier::external_body]
pub(crate) fn number_member(body: &str, key: &str) -> (r: Option<Option<String>>)
    ensures
        r.deep_view() == spec_number_member(body@, key@),
{
    match serde_json::from_str::<serde_json::Value>(body) {
        Err(_) => None,
        Ok(v) => Some(match v.get(key) {
            Some(serde_json::Value::Number(n)) => Some(n.to_string()),
            _ => None,
        }),
    }
}

/// Relies on serde_json::from_str, Value::get and Value::as_str: the
/// member under `outer`, then `key`, read as a string.
#[verifier::external_body]
pub(crate) fn nested_string_member(body: &str, outer: &str, key: &str) -> (r: Option<
    Option<String>,
>)
    ensures
        r.deep_view() == spec_nested_string_member(body@, outer@, key@),
{
    match serde_json::from_str::<serde_json::Value>(body) {
        Err(_) => None,
        Ok(v) => Some(
            v.get(outer).and_then(|o| o.get(key)).and_then(|f| f.as_str()).map(str::to_owned),
        ),
    }
}

/// Relies on serde_json::from_str, Value::get, Value::as_array and
/// Value::as_str: the member under `outer`, then `key`, an array whose
/// elements are all strings, read element for element.
#[verifier::external_body]
pub(crate) fn string_array_member(body: &str, outer: &str, key: &str) -> (r: Option<
    Option<Vec<String>>,
>)
    ensures
        r.deep_view() == spec_string_array_member(body@, outer@, key@),
{
    match serde_json::from_str::<serde_json::Value>(body) {
        Err(_) => None,
        Ok(v) => Some(
            v.get(outer).and_then(|o| o.get(key)).and_then(|f| f.as_array()).and_then(
                |a| a.iter().map(|x| x.as_str().map(str::to_owned)).collect(),
            ),
        ),
    }
}

/// Relies on serde_json::from_str, Value::get, Value::as_array and
/// Number's display form: the member under `outer`, then `key`, an
/// array whose elements are all numbers, read as their decimal texts.
#[verifier::external_body]
pub(crate) fn number_array_member(body: &str, outer: &str, key: &str) -> (r: Option<
    Option<Vec<String>>,
>)
    ensures
        r.deep_view() == spec_number_array_member(body@, outer@, key@),
{
    match serde_json::from_str::<serde_json::Value>(body) {
        Err(_) => None,
        Ok(v) => Some(
            v.get(outer).and_then(|o| o.get(key)).and_then(|f| f.as_array()).and_then(
                |a| a.iter().map(|x| match x {
                    serde_json::Value::Number(n) => Some(n.to_string()),
                    _ => None,
                }).collect(),
            ),
        ),
    }
}

} // verus!
