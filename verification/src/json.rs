//! JSON documents, as far as the library reads them.

use vstd::prelude::*;

verus! {

/// A JSON document of `serde_json`. The library hands it on and does not look inside.
#[verifier::external_type_specification]
#[verifier::external_body]
pub struct ExValue(serde_json::Value);

/// The document that a text holds, if `serde_json` accepts it.
pub uninterp spec fn json_document(text: Seq<char>) -> Option<serde_json::Value>;

/// The members of an object by their keys; none for any other document.
pub uninterp spec fn json_members(value: serde_json::Value) -> Map<Seq<char>, serde_json::Value>;

/// The elements of an array, if the document is one.
pub uninterp spec fn json_elements(value: serde_json::Value) -> Option<Seq<serde_json::Value>>;

/// Reads a JSON document, by `serde_json::from_str`.
///
/// Trusted: whether the text is accepted, and the document that it holds, depend on the text
/// alone. Which texts are accepted is not stated.
#[verifier::external_body]
fn parse_document(text: &str) -> (document: Option<serde_json::Value>)
    ensures
        document == json_document(text@),
{
    serde_json::from_str::<serde_json::Value>(text).ok()
}

/// Looks up a key, by `serde_json::Value::get`.
///
/// Trusted: the member of an object under that key is found if there is one, and nothing is
/// found in any other document.
#[verifier::external_body]
fn member<'a>(value: &'a serde_json::Value, key: &str) -> (found: Option<&'a serde_json::Value>)
    ensures
        match found {
            Some(document) => json_members(*value).contains_key(key@) && json_members(*value)[key@]
                == *document,
            None => !json_members(*value).contains_key(key@),
        },
{
    value.get(key)
}

/// Looks at the elements of an array, by `serde_json::Value::as_array`.
///
/// Trusted: an array gives its elements in order, and any other document gives nothing.
#[verifier::external_body]
fn elements(value: &serde_json::Value) -> (found: Option<&Vec<serde_json::Value>>)
    ensures
        match found {
            Some(list) => json_elements(*value) == Some(list@),
            None => json_elements(*value) is None,
        },
{
    value.as_array()
}

/// Copies a document, by the `Clone` of `serde_json::Value`.
///
/// Trusted: the copy is equal to the document.
#[verifier::external_body]
fn duplicate(value: &serde_json::Value) -> (copy: serde_json::Value)
    ensures
        copy == *value,
{
    value.clone()
}

/// The documents listed under a key in a document; none where it is no object with such a list.
pub open spec fn listed_in(document: serde_json::Value, key: Seq<char>) -> Seq<serde_json::Value> {
    if json_members(document).contains_key(key) {
        match json_elements(json_members(document)[key]) {
            Some(list) => list,
            None => Seq::empty(),
        }
    } else {
        Seq::empty()
    }
}

/// The documents listed under a key in the document that a text holds, if it holds one.
pub open spec fn listed_under(text: Seq<char>, key: Seq<char>) -> Seq<serde_json::Value> {
    match json_document(text) {
        Some(document) => listed_in(document, key),
        None => Seq::empty(),
    }
}

/// The documents listed under `key` in `document`.
pub fn list_in(document: &serde_json::Value, key: &str) -> (list: Vec<serde_json::Value>)
    ensures
        list@ == listed_in(*document, key@),
        json_members(*document).contains_key(key@) ==> match json_elements(
            json_members(*document)[key@],
        ) {
            Some(elements) => list@ == elements,
            None => list@.len() == 0,
        },
        !json_members(*document).contains_key(key@) ==> list@.len() == 0,
{
    let mut list: Vec<serde_json::Value> = Vec::new();
    if let Some(found) = member(document, key) {
        if let Some(items) = elements(found) {
            let mut i: usize = 0;
            while i < items.len()
                invariant
                    i <= items@.len(),
                    list@ == items@.take(i as int),
                decreases items@.len() - i,
            {
                list.push(duplicate(&items[i]));
                i += 1;
            }
            assert(items@.take(i as int) == items@);
        }
    }
    list
}

/// The documents listed under `key` in the document that `text` holds.
pub fn list_under(text: &str, key: &str) -> (list: Vec<serde_json::Value>)
    ensures
        list@ == listed_under(text@, key@),
        json_document(text@) is None ==> list@.len() == 0,
{
    match parse_document(text) {
        Some(document) => list_in(&document, key),
        None => Vec::new(),
    }
}

/// To look for a list in a text is to look for it in the document that the text holds. All elements
/// of the list are found, in order, exactly where an object has a list under that key; what else
/// the object holds does not matter.
pub proof fn lists_are_found_whole(
    text: Seq<char>,
    key: Seq<char>,
    document: serde_json::Value,
    other: serde_json::Value,
)
    ensures
        json_document(text) == Some(document) ==> listed_under(text, key) == listed_in(
            document,
            key,
        ),
        json_document(text) is None ==> listed_under(text, key).len() == 0,
        json_members(document).contains_key(key) ==> json_elements(json_members(document)[key])
            == Some(listed_in(document, key)) || (json_elements(json_members(document)[key]) is None
            && listed_in(document, key).len() == 0),
        !json_members(document).contains_key(key) ==> listed_in(document, key).len() == 0,
        json_members(document).contains_key(key) && json_members(other).contains_key(key)
            && json_members(document)[key] == json_members(other)[key] ==> listed_in(document, key)
            == listed_in(other, key),
{
}

} // verus!
