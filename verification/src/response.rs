//! The response side of the completion service: what a response must look
//! like, what it says, and the reply that the chat room gets to see.
//!
//! A response is a JSON object with a member `choices`, an array of objects
//! that each have a member `message`, an object whose members `role` and
//! `content` are strings. Other members are not read. The reply is the content
//! of the first choice. A response that is no JSON, or does not have this
//! shape, or has no choice, still gives a reply: a fixed text that says that
//! something went wrong. Only a response whose status is no success gives none.

use vstd::prelude::*;
use crate::json::{Json, json_document, member, find_member, parse};
use crate::message::{MessageObject, Turn, turns_of};

verus! {

/// The text that stands in for a reply that could not be read.
pub const FALLBACK: &'static str = "json can be hard sometimes. Something went wrong";

/// The fallback as a text.
pub open spec fn fallback_reply() -> Seq<char> {
    FALLBACK@
}

/// The string that an object gives a key, if it gives it a string.
pub open spec fn text_member(members: Seq<(String, Json)>, key: Seq<char>) -> Option<Seq<char>> {
    match member(members, key) {
        Some(Json::Text(text)) => Some(text@),
        _ => None,
    }
}

/// The turn that a document stands for, if it has the shape of one: an object
/// with a string `role` and a string `content`.
pub open spec fn message_of(document: Json) -> Option<Turn> {
    match document {
        Json::Object(members) => match (
            text_member(members@, "role"@),
            text_member(members@, "content"@),
        ) {
            (Some(role), Some(content)) => Some(Turn { role, content }),
            _ => None,
        },
        _ => None,
    }
}

/// The turn that a choice proposes, if the document has the shape of a choice:
/// an object whose `message` has the shape of a turn.
pub open spec fn choice_of(document: Json) -> Option<Turn> {
    match document {
        Json::Object(members) => match member(members@, "message"@) {
            Some(message) => message_of(message),
            None => None,
        },
        _ => None,
    }
}

/// The turns that a list of choices proposes, in the order of the list, if
/// every item has the shape of a choice.
pub open spec fn choices_among(items: Seq<Json>) -> Option<Seq<Turn>> {
    if forall|i: int| 0 <= i < items.len() ==> (#[trigger] choice_of(items[i])) is Some {
        Some(Seq::new(items.len(), |i: int| choice_of(items[i]).unwrap()))
    } else {
        None
    }
}

/// The turns that the choices of a response propose, if the document has the
/// shape of a response: an object whose `choices` is an array of choices.
pub open spec fn choices_of(document: Json) -> Option<Seq<Turn>> {
    match document {
        Json::Object(members) => match member(members@, "choices"@) {
            Some(Json::Array(items)) => choices_among(items@),
            _ => None,
        },
        _ => None,
    }
}

/// What a call of the completion service came to, as mathematics.
pub enum Outcome {
    /// The response proposes at least one turn; this is the content of the first.
    Content(Seq<char>),
    /// The response is well formed and proposes nothing.
    NoContent,
    /// The response is no JSON or does not have the shape of a response.
    Unreadable,
    /// The service answered with a status that is no success.
    Refused(u16),
}

/// What a parsed response body says.
pub open spec fn outcome_of(document: Option<Json>) -> Outcome {
    match document {
        None => Outcome::Unreadable,
        Some(response) => match choices_of(response) {
            None => Outcome::Unreadable,
            Some(choices) => if choices.len() == 0 {
                Outcome::NoContent
            } else {
                Outcome::Content(choices[0].content)
            },
        },
    }
}

/// Whether a status says that the request succeeded.
pub open spec fn is_success(status: u16) -> bool {
    200 <= status < 300
}

/// What a response says, given its status and what its body parses to.
pub open spec fn outcome_of_response(status: u16, document: Option<Json>) -> Outcome {
    if is_success(status) {
        outcome_of(document)
    } else {
        Outcome::Refused(status)
    }
}

/// The reply that an outcome gives the chat room: the content where there is
/// one, the fallback where the response said nothing usable, and none where
/// the service refused.
pub open spec fn reply_of(outcome: Outcome) -> Option<Seq<char>> {
    match outcome {
        Outcome::Content(content) => Some(content),
        Outcome::NoContent => Some(fallback_reply()),
        Outcome::Unreadable => Some(fallback_reply()),
        Outcome::Refused(_) => None,
    }
}

/// What a call of the completion service came to.
#[derive(Debug, PartialEq, Eq)]
pub enum Completion {
    Content(String),
    NoContent,
    Unreadable,
    Refused(u16),
}

impl View for Completion {
    type V = Outcome;

    open spec fn view(&self) -> Outcome {
        match self {
            Completion::Content(content) => Outcome::Content(content@),
            Completion::NoContent => Outcome::NoContent,
            Completion::Unreadable => Outcome::Unreadable,
            Completion::Refused(status) => Outcome::Refused(*status),
        }
    }
}

/// The string that an object gives a key.
fn find_text<'a>(members: &'a Vec<(String, Json)>, key: &str) -> (found: Option<&'a String>)
    ensures
        match found {
            Some(text) => text_member(members@, key@) == Some(text@),
            None => text_member(members@, key@) is None,
        },
{
    match find_member(members, key) {
        Some(Json::Text(text)) => Some(text),
        _ => None,
    }
}

/// Reads a document as a message.
pub fn message_from(document: &Json) -> (message: Option<MessageObject>)
    ensures
        match message {
            Some(read) => message_of(*document) == Some(read@),
            None => message_of(*document) is None,
        },
{
    match document {
        Json::Object(members) => {
            let role = find_text(members, "role");
            let content = find_text(members, "content");
            match (role, content) {
                (Some(role), Some(content)) => Some(
                    MessageObject { role: role.clone(), content: content.clone() },
                ),
                _ => None,
            }
        },
        _ => None,
    }
}

/// Reads a document as a choice and hands out its message.
pub fn choice_from(document: &Json) -> (message: Option<MessageObject>)
    ensures
        match message {
            Some(read) => choice_of(*document) == Some(read@),
            None => choice_of(*document) is None,
        },
{
    match document {
        Json::Object(members) => match find_member(members, "message") {
            Some(message) => message_from(message),
            None => None,
        },
        _ => None,
    }
}

/// Reads every item of a list as a choice and hands out their messages, in
/// the order of the list. One item that is no choice spoils the whole list.
pub fn choices_from_items(items: &Vec<Json>) -> (messages: Option<Vec<MessageObject>>)
    ensures
        match messages {
            Some(read) => choices_among(items@) == Some(turns_of(read@)),
            None => choices_among(items@) is None,
        },
{
    let mut messages: Vec<MessageObject> = Vec::new();
    let mut i: usize = 0;
    while i < items.len()
        invariant
            i <= items.len(),
            messages@.len() == i,
            forall|j: int| 0 <= j < i ==> (#[trigger] choice_of(items@[j])) == Some(messages@[j]@),
        decreases items.len() - i,
    {
        match choice_from(&items[i]) {
            Some(message) => {
                messages.push(message);
            },
            None => {
                assert(choice_of(items@[i as int]) is None);
                return None;
            },
        }
        i = i + 1;
    }
    assert(turns_of(messages@) =~= Seq::new(
        items@.len(),
        |i: int| choice_of(items@[i]).unwrap(),
    ));
    Some(messages)
}

/// Reads a document as a response and hands out the messages of its choices,
/// in their order.
pub fn choices_from(document: &Json) -> (messages: Option<Vec<MessageObject>>)
    ensures
        match messages {
            Some(read) => choices_of(*document) == Some(turns_of(read@)),
            None => choices_of(*document) is None,
        },
{
    match document {
        Json::Object(members) => match find_member(members, "choices") {
            Some(Json::Array(items)) => choices_from_items(items),
            _ => None,
        },
        _ => None,
    }
}

/// What a parsed response body says.
pub fn completion_of(document: &Option<Json>) -> (completion: Completion)
    ensures
        completion@ == outcome_of(*document),
{
    match document {
        None => Completion::Unreadable,
        Some(response) => match choices_from(response) {
            None => Completion::Unreadable,
            Some(choices) => if choices.len() == 0 {
                Completion::NoContent
            } else {
                Completion::Content(choices[0].content.clone())
            },
        },
    }
}

/// What a response says: a status that is no success is a refusal whatever
/// the body holds; else the body is read as JSON and as a response.
pub fn read_completion(status: u16, body: &str) -> (completion: Completion)
    ensures
        completion@ == outcome_of_response(status, json_document(body@)),
{
    if 200 <= status && status < 300 {
        let document = parse(body);
        completion_of(&document)
    } else {
        Completion::Refused(status)
    }
}

/// The text that stands in for a reply that could not be read.
pub fn fallback() -> (text: String)
    ensures
        text@ == fallback_reply(),
{
    String::from_str(FALLBACK)
}

/// The reply that the chat room gets for a completion, if it gets one.
pub fn reply(completion: Completion) -> (text: Option<String>)
    ensures
        match text {
            Some(shown) => reply_of(completion@) == Some(shown@),
            None => reply_of(completion@) is None,
        },
{
    match completion {
        Completion::Content(content) => Some(content),
        Completion::NoContent => Some(fallback()),
        Completion::Unreadable => Some(fallback()),
        Completion::Refused(_) => None,
    }
}

/// The reply to a response, from its status and its body: what the chat room
/// gets to see, or nothing where the service refused.
pub fn reply_to_response(status: u16, body: &str) -> (text: Option<String>)
    ensures
        match text {
            Some(shown) => reply_of(outcome_of_response(status, json_document(body@))) == Some(
                shown@,
            ),
            None => reply_of(outcome_of_response(status, json_document(body@))) is None,
        },
        text is Some <==> is_success(status),
{
    reply(read_completion(status, body))
}

/// A response with a success status always gives the chat room a reply: the
/// content of the first choice when the body is a response with a choice, and
/// the fallback in every other case, be the body no JSON, of another shape, or
/// without choices.
pub proof fn lemma_reply_is_first_choice_or_fallback(status: u16, document: Option<Json>)
    requires
        is_success(status),
    ensures
        reply_of(outcome_of_response(status, document)) == Some(
            match document {
                Some(response) => match choices_of(response) {
                    Some(choices) => if choices.len() > 0 {
                        choices[0].content
                    } else {
                        fallback_reply()
                    },
                    None => fallback_reply(),
                },
                None => fallback_reply(),
            },
        ),
{
}

/// A response whose status is no success gives no reply, whatever its body.
pub proof fn lemma_refusal_gives_no_reply(status: u16, document: Option<Json>)
    requires
        !is_success(status),
    ensures
        outcome_of_response(status, document) == Outcome::Refused(status),
        reply_of(outcome_of_response(status, document)) is None,
{
}

/// One item that is no choice spoils the response: the choices are read only
/// when every one of them has a message with a role and a content.
pub proof fn lemma_every_choice_counts(items: Seq<Json>, bad: int)
    requires
        0 <= bad < items.len(),
        choice_of(items[bad]) is None,
    ensures
        choices_among(items) is None,
{
}

/// The choices come out in the order of the response, one turn for each.
pub proof fn lemma_choices_keep_their_order(items: Seq<Json>)
    requires
        choices_among(items) is Some,
    ensures
        choices_among(items).unwrap().len() == items.len(),
        forall|i: int|
            0 <= i < items.len() ==> choice_of(items[i]) == Some(
                #[trigger] choices_among(items).unwrap()[i],
            ),
{
}

} // verus!
