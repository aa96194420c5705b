//! The request side of the completion service: which model is asked, which
//! turns are sent, and the text that goes over the wire.

use vstd::prelude::*;
use crate::json::{json_quoted, quote};
use crate::message::{MessageObject, Turn, turns_of, user_turn};

verus! {

/// Where chat completions are asked for.
pub const CHAT_COMPLETION: &'static str = "https://api.openai.com/v1/chat/completions";

/// The model that every completion is asked of.
pub const CHAT_MODEL: &'static str = "gpt-3.5-turbo";

/// The name of the chat model as a text.
pub open spec fn chat_model() -> Seq<char> {
    CHAT_MODEL@
}

/// A completion request as mathematics: the model and the turns, in order.
pub struct Request {
    pub model: Seq<char>,
    pub messages: Seq<Turn>,
}

/// The wire text of one message, given the JSON string literals of its role
/// and of its content.
pub open spec fn message_frame(quoted_role: Seq<char>, quoted_content: Seq<char>) -> Seq<char> {
    "{\"role\":"@ + quoted_role + ",\"content\":"@ + quoted_content + "}"@
}

/// The texts one after the other, in order, with a comma between neighbours.
pub open spec fn joined(texts: Seq<Seq<char>>) -> Seq<char>
    decreases texts.len(),
{
    if texts.len() == 0 {
        Seq::empty()
    } else if texts.len() == 1 {
        texts[0]
    } else {
        joined(texts.drop_last()) + ","@ + texts.last()
    }
}

/// The wire text of a request, given the JSON string literal of its model and
/// the wire texts of its messages.
pub open spec fn request_frame(quoted_model: Seq<char>, messages: Seq<Seq<char>>) -> Seq<char> {
    "{\"model\":"@ + quoted_model + ",\"messages\":["@ + joined(messages) + "]}"@
}

/// The wire text of one turn.
pub open spec fn message_wire(turn: Turn) -> Seq<char> {
    message_frame(json_quoted(turn.role), json_quoted(turn.content))
}

/// The wire texts of the turns, one for each, in the order of the turns.
pub open spec fn messages_wire(turns: Seq<Turn>) -> Seq<Seq<char>> {
    Seq::new(turns.len(), |i: int| message_wire(turns[i]))
}

/// The wire text of a request: the model first, then every turn in the order
/// in which the request holds them, none left out and none moved.
pub open spec fn request_wire(request: Request) -> Seq<char> {
    request_frame(json_quoted(request.model), messages_wire(request.messages))
}

/// The views of a list of texts.
pub open spec fn texts_of(texts: Seq<String>) -> Seq<Seq<char>> {
    Seq::new(texts.len(), |i: int| texts[i]@)
}

/// What one more text adds to a joined list.
pub proof fn lemma_joined_push(texts: Seq<Seq<char>>, text: Seq<char>)
    ensures
        joined(texts.push(text)) == if texts.len() == 0 {
            text
        } else {
            joined(texts) + ","@ + text
        },
{
    assert(texts.push(text).drop_last() =~= texts);
}

/// Frames one message from the JSON string literals of its role and content.
pub fn frame_message(quoted_role: &str, quoted_content: &str) -> (text: String)
    ensures
        text@ == message_frame(quoted_role@, quoted_content@),
{
    let mut text = String::from_str("{\"role\":");
    text.append(quoted_role);
    text.append(",\"content\":");
    text.append(quoted_content);
    text.append("}");
    text
}

/// Frames a request from the JSON string literal of its model and the wire
/// texts of its messages.
pub fn frame_request(quoted_model: &str, messages: &Vec<String>) -> (text: String)
    ensures
        text@ == request_frame(quoted_model@, texts_of(messages@)),
{
    let ghost all = texts_of(messages@);
    let ghost head = "{\"model\":"@ + quoted_model@ + ",\"messages\":["@;
    let mut text = String::from_str("{\"model\":");
    text.append(quoted_model);
    text.append(",\"messages\":[");
    let mut i: usize = 0;
    assert(head + joined(all.take(0)) =~= head);
    while i < messages.len()
        invariant
            i <= messages.len(),
            all == texts_of(messages@),
            text@ == head + joined(all.take(i as int)),
        decreases messages.len() - i,
    {
        proof {
            lemma_joined_push(all.take(i as int), all[i as int]);
            assert(all.take(i as int).push(all[i as int]) =~= all.take(i + 1));
        }
        if i > 0 {
            text.append(",");
        }
        text.append(messages[i].as_str());
        assert(text@ =~= head + joined(all.take(i + 1)));
        i = i + 1;
    }
    assert(all.take(messages.len() as int) =~= all);
    text.append("]}");
    text
}

/// The wire text of one message.
pub fn message_json(message: &MessageObject) -> (text: String)
    ensures
        text@ == message_wire(message@),
{
    let role = quote(message.role.as_str());
    let content = quote(message.content.as_str());
    frame_message(role.as_str(), content.as_str())
}

/// A completion request: the model to ask and the turns to send, in order.
#[derive(Debug, PartialEq, Eq)]
pub struct ChatRequest {
    pub model: String,
    pub messages: Vec<MessageObject>,
}

impl View for ChatRequest {
    type V = Request;

    open spec fn view(&self) -> Request {
        Request { model: self.model@, messages: turns_of(self.messages@) }
    }
}

impl Default for ChatRequest {
    /// A request that greets the larger model.
    fn default() -> (request: Self)
        ensures
            request@ == (Request { model: "gpt-4"@, messages: seq![user_turn("Hello!"@)] }),
    {
        let mut messages: Vec<MessageObject> = Vec::new();
        messages.push(MessageObject::default());
        assert(turns_of(messages@) =~= seq![user_turn("Hello!"@)]);
        ChatRequest { model: String::from_str("gpt-4"), messages }
    }
}

impl ChatRequest {
    /// The request that sends these turns, as they are, to the chat model.
    pub fn new(messages: Vec<MessageObject>) -> (request: Self)
        ensures
            request@ == (Request { model: chat_model(), messages: turns_of(messages@) }),
            request.messages == messages,
    {
        ChatRequest { model: String::from_str(CHAT_MODEL), messages }
    }

    /// The text of the request as it goes over the wire.
    pub fn to_json(&self) -> (text: String)
        ensures
            text@ == request_wire(self@),
    {
        let ghost turns = turns_of(self.messages@);
        let mut texts: Vec<String> = Vec::new();
        let mut i: usize = 0;
        while i < self.messages.len()
            invariant
                i <= self.messages.len(),
                turns == turns_of(self.messages@),
                texts_of(texts@) == messages_wire(turns).take(i as int),
            decreases self.messages.len() - i,
        {
            let text = message_json(&self.messages[i]);
            let ghost sent = texts_of(texts@);
            assert(turns[i as int] == self.messages@[i as int]@);
            texts.push(text);
            assert(texts_of(texts@) =~= sent.push(message_wire(turns[i as int])));
            assert(messages_wire(turns).take(i + 1) =~= messages_wire(turns).take(i as int).push(
                message_wire(turns[i as int]),
            ));
            i = i + 1;
        }
        assert(messages_wire(turns).take(self.messages.len() as int) =~= messages_wire(turns));
        let model = quote(self.model.as_str());
        frame_request(model.as_str(), &texts)
    }
}

/// A POST to the completion service as mathematics.
pub struct Post {
    pub url: Seq<char>,
    pub authorization: Seq<char>,
    pub content_type: Seq<char>,
    pub accept: Seq<char>,
    pub body: Seq<char>,
}

/// The POST that asks the service to continue the turns, authorised by `key`:
/// a bearer credential, JSON both ways, and the request's wire text as body.
pub open spec fn post_for(key: Seq<char>, turns: Seq<Turn>) -> Post {
    Post {
        url: CHAT_COMPLETION@,
        authorization: "Bearer "@ + key,
        content_type: "application/json"@,
        accept: "application/json"@,
        body: request_wire(Request { model: chat_model(), messages: turns }),
    }
}

/// A POST to the completion service, ready to be sent: the address, the three
/// headers by name, and the body.
#[derive(Debug, PartialEq, Eq)]
pub struct HttpPost {
    pub url: String,
    pub authorization: String,
    pub content_type: String,
    pub accept: String,
    pub body: String,
}

impl View for HttpPost {
    type V = Post;

    open spec fn view(&self) -> Post {
        Post {
            url: self.url@,
            authorization: self.authorization@,
            content_type: self.content_type@,
            accept: self.accept@,
            body: self.body@,
        }
    }
}

/// The POST that asks for the next turn of a conversation. The conversation
/// must hold at least one turn.
pub fn completion_post(key: &str, messages: Vec<MessageObject>) -> (post: HttpPost)
    requires
        messages@.len() > 0,
    ensures
        post@ == post_for(key@, turns_of(messages@)),
{
    let request = ChatRequest::new(messages);
    let mut authorization = String::from_str("Bearer ");
    authorization.append(key);
    HttpPost {
        url: String::from_str(CHAT_COMPLETION),
        authorization,
        content_type: String::from_str("application/json"),
        accept: String::from_str("application/json"),
        body: request.to_json(),
    }
}

/// The wire holds the turns as the request holds them: one message for each
/// turn, at the turn's own place, and a turn more in the request is a message
/// more at the end of the wire.
pub proof fn lemma_turns_are_sent_in_order(turns: Seq<Turn>, next: Turn)
    ensures
        messages_wire(turns).len() == turns.len(),
        forall|i: int|
            0 <= i < turns.len() ==> #[trigger] messages_wire(turns)[i] == message_wire(turns[i]),
        messages_wire(turns.push(next)) == messages_wire(turns).push(message_wire(next)),
        joined(messages_wire(turns.push(next))) == if turns.len() == 0 {
            message_wire(next)
        } else {
            joined(messages_wire(turns)) + ","@ + message_wire(next)
        },
{
    assert(messages_wire(turns.push(next)) =~= messages_wire(turns).push(message_wire(next)));
    lemma_joined_push(messages_wire(turns), message_wire(next));
}

} // verus!
