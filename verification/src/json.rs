//! Reading the structured output of a command: a parsed JSON document is kept
//! as the parser's own value, and the lists that callers need are drawn from it.

use vstd::prelude::*;
use serde_json::Value;
use crate::text::{optional_texts, present, present_strings, texts};

verus! {

/// A parsed JSON document.
#[verifier::external_type_specification]
#[verifier::external_body]
pub struct ExValue(serde_json::Value);

/// The reason why a text is no JSON document.
#[verifier::external_type_specification]
#[verifier::external_body]
pub struct ExParseError(serde_json::Error);

/// The document that `bytes` spell, if they spell one.
pub uninterp spec fn json_document(bytes: Seq<u8>) -> Option<serde_json::Value>;

/// The member of the object `doc` under `key`; the null document where `doc`
/// is no object or has no such member.
pub uninterp spec fn json_member(doc: serde_json::Value, key: Seq<char>) -> serde_json::Value;

/// The elements of `doc`, if it is an array.
pub uninterp spec fn json_items(doc: serde_json::Value) -> Option<Seq<serde_json::Value>>;

/// The text of `doc`, if it is a string.
pub uninterp spec fn json_text(doc: serde_json::Value) -> Option<Seq<char>>;

/// Calls `serde_json::from_slice` for a `Value`. The contract claims that
/// whether the bytes parse, and the document they give, depend on the bytes
/// alone.
#[verifier::external_body]
fn parse_value(bytes: &[u8]) -> (parsed: Result<Value, serde_json::Error>)
    ensures
        parsed is Ok <==> json_document(bytes@) is Some,
        parsed is Ok ==> json_document(bytes@) == Some(parsed->Ok_0),
{
    serde_json::from_slice::<Value>(bytes)
}

/// Renders a `serde_json::Error` through its `Display` impl. Nothing is
/// claimed of the text.
#[verifier::external_body]
fn parse_error_text(error: &serde_json::Error) -> (text: String) {
    error.to_string()
}

/// Indexes a `Value` by a string key (`Index<&str>`), which yields the null
/// value where there is no such member. The contract names the member.
#[verifier::external_body]
fn member<'a>(doc: &'a Value, key: &str) -> (found: &'a Value)
    ensures
        *found == json_member(*doc, key@),
{
    &doc[key]
}

/// Calls `Value::as_array`. The contract names the elements.
#[verifier::external_body]
fn items<'a>(doc: &'a Value) -> (found: Option<&'a Vec<Value>>)
    ensures
        found is Some <==> json_items(*doc) is Some,
        found is Some ==> json_items(*doc) == Some(found->0@),
{
    doc.as_array()
}

/// Calls `Value::as_str`. The contract names the text.
#[verifier::external_body]
fn text<'a>(doc: &'a Value) -> (found: Option<&'a str>)
    ensures
        found is Some <==> json_text(*doc) is Some,
        found is Some ==> json_text(*doc) == Some(found->0@),
{
    doc.as_str()
}

/// The text of each of `items`, where it is a string.
pub open spec fn item_texts(items: Seq<Value>) -> Seq<Option<Seq<char>>> {
    items.map_values(|v: Value| json_text(v))
}

/// The strings among the elements of the array under `key` in `doc`; empty
/// where there is no array under `key`.
pub open spec fn string_list_of(doc: Value, key: Seq<char>) -> Seq<Seq<char>> {
    match json_items(json_member(doc, key)) {
        Some(items) => present(item_texts(items)),
        None => Seq::empty(),
    }
}

/// The strings among the elements of the array under `key` in `doc`, in
/// their order; elements that are no strings are left out, and a document
/// without an array under `key` gives the empty list.
pub fn string_list(doc: &Value, key: &str) -> (list: Vec<String>)
    ensures
        texts(list@) == string_list_of(*doc, key@),
{
    match items(member(doc, key)) {
        Some(array) => {
            let mut found: Vec<Option<String>> = Vec::new();
            let n: usize = array.len();
            let mut i: usize = 0;
            while i < n
                invariant
                    n == array@.len(),
                    i <= n,
                    optional_texts(found@) =~= item_texts(array@).take(i as int),
                decreases n - i,
            {
                let entry: Option<String> = match text(&array[i]) {
                    Some(t) => Some(t.to_owned()),
                    None => None,
                };
                let ghost before = found@;
                found.push(entry);
                assert(optional_texts(found@) =~= optional_texts(before).push(
                    json_text(array@[i as int]),
                ));
                i += 1;
            }
            assert(item_texts(array@).take(n as int) =~= item_texts(array@));
            present_strings(&found)
        },
        None => {
            let list: Vec<String> = Vec::new();
            assert(texts(list@) =~= Seq::empty());
            list
        },
    }
}

/// Parses the standard output of a command as a JSON document.
pub fn parse_output(stdout: &[u8]) -> (parsed: Result<Value, String>)
    ensures
        parsed is Ok <==> json_document(stdout@) is Some,
        parsed is Ok ==> json_document(stdout@) == Some(parsed->Ok_0),
{
    match parse_value(stdout) {
        Ok(doc) => Ok(doc),
        Err(e) => Err(parse_error_text(&e)),
    }
}

} // verus!
