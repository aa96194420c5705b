use chat_relay::json::quote;
use chat_relay::message::MessageObject;
use chat_relay::request::{
    completion_post, frame_message, frame_request, message_json, ChatRequest, CHAT_COMPLETION,
    CHAT_MODEL,
};

fn turn(role: &str, content: &str) -> MessageObject {
    MessageObject { role: role.to_owned(), content: content.to_owned() }
}

#[test]
fn new_asks_the_chat_model_with_the_turns_as_they_are() {
    let messages = vec![turn("system", "be brief"), turn("user", "Hello")];
    let request = ChatRequest::new(messages.clone());
    assert_eq!(request.model, "gpt-3.5-turbo");
    assert_eq!(CHAT_MODEL, "gpt-3.5-turbo");
    assert_eq!(request.messages, messages);
    let empty = ChatRequest::new(Vec::new());
    assert_eq!(empty.model, "gpt-3.5-turbo");
    assert!(empty.messages.is_empty());
}

#[test]
fn default_greets_the_larger_model() {
    let request = ChatRequest::default();
    assert_eq!(request.model, "gpt-4");
    assert_eq!(request.messages, vec![turn("user", "Hello!")]);
}

#[test]
fn quote_writes_a_json_string_literal() {
    assert_eq!(quote("Hello"), "\"Hello\"");
    assert_eq!(quote(""), "\"\"");
    assert_eq!(quote("a\"b\\c"), "\"a\\\"b\\\\c\"");
    assert_eq!(quote("line\nbreak\ttab\r"), "\"line\\nbreak\\ttab\\r\"");
    assert_eq!(quote("\u{0001}\u{001f}"), "\"\\u0001\\u001f\"");
    assert_eq!(quote("café 😀 / <@1>"), "\"café 😀 / <@1>\"");
}

#[test]
fn quote_is_read_back_by_serde_json() {
    for text in ["", "plain", "a\"b", "\\", "\n\r\t\u{0008}\u{000c}", "\u{0000}", "日本語 😀", "</script>"] {
        let read: String = serde_json::from_str(&quote(text)).unwrap();
        assert_eq!(read, text);
    }
}

#[test]
fn a_message_is_framed_role_first() {
    assert_eq!(
        frame_message("\"user\"", "\"Hello\""),
        "{\"role\":\"user\",\"content\":\"Hello\"}"
    );
    assert_eq!(frame_message("", ""), "{\"role\":,\"content\":}");
    assert_eq!(
        message_json(&turn("assistant", "say \"hi\"\n")),
        "{\"role\":\"assistant\",\"content\":\"say \\\"hi\\\"\\n\"}"
    );
}

#[test]
fn a_request_is_framed_model_first_with_commas_between_messages() {
    assert_eq!(frame_request("\"m\"", &Vec::new()), "{\"model\":\"m\",\"messages\":[]}");
    assert_eq!(
        frame_request("\"m\"", &vec!["{}".to_owned()]),
        "{\"model\":\"m\",\"messages\":[{}]}"
    );
    assert_eq!(
        frame_request("\"m\"", &vec!["1".to_owned(), "2".to_owned(), "3".to_owned()]),
        "{\"model\":\"m\",\"messages\":[1,2,3]}"
    );
}

#[test]
fn to_json_sends_every_turn_in_order() {
    let request = ChatRequest::new(vec![
        turn("system", "be brief"),
        turn("user", "Hello"),
        turn("assistant", "Hi there!"),
        turn("user", "Hello"),
    ]);
    assert_eq!(
        request.to_json(),
        "{\"model\":\"gpt-3.5-turbo\",\"messages\":[\
         {\"role\":\"system\",\"content\":\"be brief\"},\
         {\"role\":\"user\",\"content\":\"Hello\"},\
         {\"role\":\"assistant\",\"content\":\"Hi there!\"},\
         {\"role\":\"user\",\"content\":\"Hello\"}]}"
    );
    assert_eq!(
        ChatRequest::default().to_json(),
        "{\"model\":\"gpt-4\",\"messages\":[{\"role\":\"user\",\"content\":\"Hello!\"}]}"
    );
    assert_eq!(
        ChatRequest::new(Vec::new()).to_json(),
        "{\"model\":\"gpt-3.5-turbo\",\"messages\":[]}"
    );
}

#[test]
fn to_json_is_json_that_holds_the_request() {
    let messages = vec![
        turn("system", "quotes \" and \\ and\nnewlines"),
        turn("user", "tabs\tand <@123> and 😀"),
        turn("assistant", "{\"role\":\"user\"}"),
    ];
    let request = ChatRequest::new(messages.clone());
    let read: serde_json::Value = serde_json::from_str(&request.to_json()).unwrap();
    let top = read.as_object().unwrap();
    assert_eq!(top.len(), 2);
    assert_eq!(top.get("model").unwrap().as_str(), Some("gpt-3.5-turbo"));
    let sent = top.get("messages").unwrap().as_array().unwrap();
    assert_eq!(sent.len(), messages.len());
    for (sent, message) in sent.iter().zip(&messages) {
        let members = sent.as_object().unwrap();
        assert_eq!(members.len(), 2);
        assert_eq!(members.get("role").unwrap().as_str(), Some(message.role.as_str()));
        assert_eq!(members.get("content").unwrap().as_str(), Some(message.content.as_str()));
    }
}

#[test]
fn the_post_bears_the_credential_and_the_request() {
    let messages = vec![turn("system", "be brief"), turn("user", "Hello")];
    let post = completion_post("sk-test", messages.clone());
    assert_eq!(post.url, "https://api.openai.com/v1/chat/completions");
    assert_eq!(post.url, CHAT_COMPLETION);
    assert_eq!(post.authorization, "Bearer sk-test");
    assert_eq!(post.content_type, "application/json");
    assert_eq!(post.accept, "application/json");
    assert_eq!(post.body, ChatRequest::new(messages).to_json());
    assert_eq!(
        post.body,
        "{\"model\":\"gpt-3.5-turbo\",\"messages\":[\
         {\"role\":\"system\",\"content\":\"be brief\"},\
         {\"role\":\"user\",\"content\":\"Hello\"}]}"
    );
}
