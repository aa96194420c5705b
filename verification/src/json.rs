//! JSON documents as the library reads them, and the calls into `serde_json`
//! that read and write JSON text.
//!
//! The grammar of JSON is `serde_json`'s business and is taken on trust: the
//! three functions here whose bodies are not verified each make one call into
//! it, and their contracts give its results a name without saying what they
//! are on any given text. What a response or a request has to look like is
//! this library's business, and is proved where it is decided.

use vstd::prelude::*;

verus! {

/// `serde_json::Value`, carried from the parser to the conversion as it is.
/// The proofs see nothing inside it.
#[verifier::external_type_specification]
#[verifier::external_body]
pub struct ExValue(serde_json::Value);

/// `serde_json::Error`, which the parser and the writer return. The library
/// only tells it from a success.
#[verifier::external_type_specification]
#[verifier::external_body]
pub struct ExError(serde_json::Error);

/// A JSON document. The library reads objects, arrays and strings; of a
/// number it keeps only that it is one.
#[derive(Debug, PartialEq, Eq)]
pub enum Json {
    Null,
    Bool(bool),
    Number,
    Text(String),
    Array(Vec<Json>),
    /// The members of an object, each a key with its value.
    Object(Vec<(String, Json)>),
}

/// The document that `serde_json::from_str` reads from a text, and `None` for a
/// text that it rejects.
pub uninterp spec fn json_document(text: Seq<char>) -> Option<Json>;

/// What a `serde_json::Value` holds, written as a document of this library.
pub uninterp spec fn value_tree(value: serde_json::Value) -> Json;

/// Calls `serde_json::from_str` at the type `serde_json::Value`, which reads
/// the whole text as one JSON value and fails on anything else. Trusted: that
/// the outcome depends on the text alone, which is what lets it bear the name
/// `json_document`: the name is the value's content when a value comes back and
/// `None` when an error does.
#[verifier::external_body]
fn read_value(text: &str) -> (read: Result<serde_json::Value, serde_json::Error>)
    ensures
        match read {
            Ok(value) => json_document(text@) == Some(value_tree(value)),
            Err(_) => json_document(text@) is None,
        },
{
    serde_json::from_str::<serde_json::Value>(text)
}

/// Takes a `serde_json::Value` apart by its six variants and builds the same
/// document in this library's type: a string and a boolean are moved, a number
/// leaves only its mark, the items of an array are converted in place, and the
/// members of an object are taken in the order in which `serde_json::Map`'s
/// `into_iter` hands them out, each key once. Trusted: that the document
/// depends on the value alone, which is what lets it bear the name
/// `value_tree`.
#[verifier::external_body]
fn tree_of(value: serde_json::Value) -> (tree: Json)
    ensures
        tree == value_tree(value),
{
    match value {
        serde_json::Value::Null => Json::Null,
        serde_json::Value::Bool(flag) => Json::Bool(flag),
        serde_json::Value::Number(_) => Json::Number,
        serde_json::Value::String(text) => Json::Text(text),
        serde_json::Value::Array(items) => Json::Array(items.into_iter().map(tree_of).collect()),
        serde_json::Value::Object(members) => Json::Object(
            members.into_iter().map(|(key, value)| (key, tree_of(value))).collect(),
        ),
    }
}

/// Reads a text as JSON: the document, or `None` for a text that is no JSON.
pub fn parse(text: &str) -> (document: Option<Json>)
    ensures
        document == json_document(text@),
{
    match read_value(text) {
        Ok(value) => Some(tree_of(value)),
        Err(_) => None,
    }
}

/// The JSON string literal that `serde_json::to_string` writes for a text: the
/// text between double quotes, with what JSON does not take as it is escaped.
pub uninterp spec fn json_quoted(text: Seq<char>) -> Seq<char>;

/// Calls `serde_json::to_string` at the type `str`, which writes the text as a
/// JSON string literal. Trusted: that the call succeeds, since serialisation
/// fails only where a value's own serialiser fails or a map has a key that is
/// no string, and a `str` is written straight into a buffer in memory; and that
/// the literal depends on the text alone, which is what lets it bear the name
/// `json_quoted`.
#[verifier::external_body]
fn write_string(text: &str) -> (written: Result<String, serde_json::Error>)
    ensures
        written is Ok,
        written matches Ok(literal) ==> literal@ == json_quoted(text@),
{
    serde_json::to_string(text)
}

/// The JSON string literal for a text.
pub fn quote(text: &str) -> (literal: String)
    ensures
        literal@ == json_quoted(text@),
{
    match write_string(text) {
        Ok(literal) => literal,
        Err(_) => unreached(),
    }
}

/// The value that an object gives a key: that of its last member with the key,
/// if it has one.
pub open spec fn member(members: Seq<(String, Json)>, key: Seq<char>) -> Option<Json>
    decreases members.len(),
{
    if members.len() == 0 {
        None
    } else if members.last().0@ == key {
        Some(members.last().1)
    } else {
        member(members.drop_last(), key)
    }
}

/// Looks a key up among the members of an object.
pub fn find_member<'a>(members: &'a Vec<(String, Json)>, key: &str) -> (found: Option<&'a Json>)
    ensures
        match found {
            Some(value) => member(members@, key@) == Some(*value),
            None => member(members@, key@) is None,
        },
{
    let wanted = String::from_str(key);
    let mut i: usize = members.len();
    assert(members@.take(i as int) =~= members@);
    while i > 0
        invariant
            i <= members.len(),
            wanted@ == key@,
            member(members@, key@) == member(members@.take(i as int), key@),
        decreases i,
    {
        i = i - 1;
        assert(members@.take(i + 1).drop_last() =~= members@.take(i as int));
        if members[i].0 == wanted {
            return Some(&members[i].1);
        }
    }
    None
}

/// A member more at the end of an object decides its own key and leaves every
/// other key as it was.
pub proof fn lemma_member_of_push(
    members: Seq<(String, Json)>,
    last: (String, Json),
    key: Seq<char>,
)
    ensures
        member(members.push(last), key) == if last.0@ == key {
            Some(last.1)
        } else {
            member(members, key)
        },
{
    assert(members.push(last).drop_last() =~= members);
}

/// A key has a value exactly when some member bears it, and the value is that
/// of a member with the key.
pub proof fn lemma_member_is_among(members: Seq<(String, Json)>, key: Seq<char>)
    ensures
        member(members, key) is Some <==> exists|i: int|
            0 <= i < members.len() && (#[trigger] members[i]).0@ == key,
        member(members, key) matches Some(value) ==> exists|i: int|
            0 <= i < members.len() && (#[trigger] members[i]).0@ == key && members[i].1 == value,
    decreases members.len(),
{
    if members.len() > 0 {
        let rest = members.drop_last();
        lemma_member_is_among(rest, key);
        if members.last().0@ == key {
            assert(members[members.len() - 1].0@ == key);
        } else {
            if member(rest, key) is Some {
                let i = choose|i: int|
                    0 <= i < rest.len() && (#[trigger] rest[i]).0@ == key && rest[i].1 == member(
                        rest,
                        key,
                    ).unwrap();
                assert(members[i] == rest[i]);
            }
            if exists|i: int| 0 <= i < members.len() && (#[trigger] members[i]).0@ == key {
                let i = choose|i: int| 0 <= i < members.len() && (#[trigger] members[i]).0@ == key;
                assert(i < rest.len());
                assert(rest[i] == members[i]);
            }
        }
    }
}

} // verus!
