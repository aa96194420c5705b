use chat_relay::chat::{begin, step, ChatAction, ChatEvent, ChatState};
use chat_relay::history::ConversationHistory;
use chat_relay::message::MessageObject;
use chat_relay::request::completion_post;
use chat_relay::response::{read_completion, reply};

const PERSONA: &str =
    "You are a playful chatbot creating creative samples from prompts sent through discord.";

fn turn(role: &str, content: &str) -> MessageObject {
    MessageObject { role: role.to_owned(), content: content.to_owned() }
}

/// A completion service that answers one known request and no other.
fn mocked_endpoint(body: &str) -> (u16, String) {
    let expected = format!(
        "{{\"model\":\"gpt-3.5-turbo\",\"messages\":[\
         {{\"role\":\"system\",\"content\":\"{}\"}},\
         {{\"role\":\"user\",\"content\":\"Hello\"}}]}}",
        PERSONA
    );
    if body == expected {
        (
            200,
            r#"{"id":"chatcmpl-1","object":"chat.completion","created":1,"model":"gpt-3.5-turbo",
                "usage":{"total_tokens":5},
                "choices":[{"message":{"role":"assistant","content":"Hi there!"},
                            "finish_reason":"stop","index":0}]}"#
                .to_owned(),
        )
    } else {
        (400, r#"{"error":{"message":"unexpected request"}}"#.to_owned())
    }
}

/// Runs one exchange against a history, with `call` in place of the service.
fn run(
    history: &mut ConversationHistory,
    text: &str,
    call: &dyn Fn(Vec<MessageObject>) -> Option<String>,
) -> (ChatState, Vec<String>) {
    let (mut state, mut actions) = begin(text.to_owned());
    let mut emitted = Vec::new();
    let mut steps = 0;
    while !actions.is_empty() {
        steps += 1;
        assert!(steps < 10, "the exchange does not end");
        let mut events = Vec::new();
        for action in actions {
            match action {
                ChatAction::Read => events.push(ChatEvent::Snapshot(history.snapshot())),
                ChatAction::Call(turns) => events.push(match call(turns) {
                    Some(reply) => ChatEvent::Reply(reply),
                    None => ChatEvent::CallFailed,
                }),
                ChatAction::Append(turn) => history.append(turn),
                ChatAction::Emit(text) => emitted.push(text),
            }
        }
        actions = Vec::new();
        for event in events {
            let (next, mut more) = step(state, event);
            state = next;
            actions.append(&mut more);
        }
    }
    (state, emitted)
}

#[test]
fn end_to_end_scenario() {
    let mut history = ConversationHistory::new();
    assert_eq!(history.snapshot(), vec![turn("system", PERSONA)]);
    let call = |turns: Vec<MessageObject>| {
        assert_eq!(turns, vec![turn("system", PERSONA), turn("user", "Hello")]);
        let post = completion_post("sk-test", turns);
        let (status, body) = mocked_endpoint(&post.body);
        reply(read_completion(status, &body))
    };
    let (state, emitted) = run(&mut history, "Hello", &call);
    assert_eq!(state, ChatState::Done);
    assert_eq!(emitted, vec!["Hi there!".to_owned()]);
    assert_eq!(
        history.snapshot(),
        vec![turn("system", PERSONA), turn("user", "Hello"), turn("assistant", "Hi there!")]
    );
}

#[test]
fn the_steps_of_an_exchange() {
    let (state, actions) = begin("Hello".to_owned());
    assert_eq!(state, ChatState::Reading { text: "Hello".to_owned() });
    assert_eq!(actions, vec![ChatAction::Read]);

    let snapshot = vec![turn("system", "seed"), turn("user", "before")];
    let (state, actions) = step(state, ChatEvent::Snapshot(snapshot));
    assert_eq!(state, ChatState::Calling { user: turn("user", "Hello") });
    assert_eq!(
        actions,
        vec![ChatAction::Call(vec![
            turn("system", "seed"),
            turn("user", "before"),
            turn("user", "Hello"),
        ])]
    );

    let (state, actions) = step(state, ChatEvent::Reply("Hi there!".to_owned()));
    assert_eq!(state, ChatState::Done);
    assert_eq!(
        actions,
        vec![
            ChatAction::Append(turn("user", "Hello")),
            ChatAction::Append(turn("assistant", "Hi there!")),
            ChatAction::Emit("Hi there!".to_owned()),
        ]
    );
}

#[test]
fn a_failed_call_commits_nothing() {
    let mut history = ConversationHistory::new();
    history.append(turn("user", "earlier"));
    let before = history.snapshot();
    let (state, emitted) = run(&mut history, "Hello", &|_| None);
    assert_eq!(state, ChatState::Aborted);
    assert!(emitted.is_empty());
    assert_eq!(history.snapshot(), before);

    let (state, _) = begin("Hello".to_owned());
    let (state, _) = step(state, ChatEvent::Snapshot(before));
    let (state, actions) = step(state, ChatEvent::CallFailed);
    assert_eq!(state, ChatState::Aborted);
    assert_eq!(actions, Vec::new());
}

#[test]
fn a_refused_request_commits_nothing() {
    let mut history = ConversationHistory::new();
    let call = |turns: Vec<MessageObject>| {
        let post = completion_post("sk-test", turns);
        let (status, body) = mocked_endpoint(&post.body);
        assert_eq!(status, 400);
        reply(read_completion(status, &body))
    };
    let (state, emitted) = run(&mut history, "something else", &call);
    assert_eq!(state, ChatState::Aborted);
    assert!(emitted.is_empty());
    assert_eq!(history.snapshot(), vec![turn("system", PERSONA)]);
}

#[test]
fn an_unreadable_response_commits_the_fallback() {
    let mut history = ConversationHistory::new();
    let call = |_turns: Vec<MessageObject>| reply(read_completion(200, "<html>oops</html>"));
    let (state, emitted) = run(&mut history, "Hello", &call);
    let fallback = "json can be hard sometimes. Something went wrong";
    assert_eq!(state, ChatState::Done);
    assert_eq!(emitted, vec![fallback.to_owned()]);
    assert_eq!(
        history.snapshot(),
        vec![turn("system", PERSONA), turn("user", "Hello"), turn("assistant", fallback)]
    );
}

#[test]
fn an_event_out_of_turn_changes_nothing() {
    let reading = || ChatState::Reading { text: "Hello".to_owned() };
    let calling = || ChatState::Calling { user: turn("user", "Hello") };
    let snapshot = || ChatEvent::Snapshot(vec![turn("system", "seed")]);
    let answered = || ChatEvent::Reply("Hi".to_owned());

    assert_eq!(step(reading(), answered()), (reading(), Vec::new()));
    assert_eq!(step(reading(), ChatEvent::CallFailed), (reading(), Vec::new()));
    assert_eq!(step(calling(), snapshot()), (calling(), Vec::new()));
    assert_eq!(step(ChatState::Done, snapshot()), (ChatState::Done, Vec::new()));
    assert_eq!(step(ChatState::Done, answered()), (ChatState::Done, Vec::new()));
    assert_eq!(step(ChatState::Done, ChatEvent::CallFailed), (ChatState::Done, Vec::new()));
    assert_eq!(step(ChatState::Aborted, snapshot()), (ChatState::Aborted, Vec::new()));
    assert_eq!(step(ChatState::Aborted, answered()), (ChatState::Aborted, Vec::new()));
    assert_eq!(step(ChatState::Aborted, ChatEvent::CallFailed), (ChatState::Aborted, Vec::new()));
}

#[test]
fn two_exchanges_follow_each_other_in_the_history() {
    let mut history = ConversationHistory::new();
    let echo = |turns: Vec<MessageObject>| {
        Some(format!("you said {}", turns.last().unwrap().content))
    };
    run(&mut history, "one", &echo);
    run(&mut history, "two", &echo);
    assert_eq!(
        history.snapshot(),
        vec![
            turn("system", PERSONA),
            turn("user", "one"),
            turn("assistant", "you said one"),
            turn("user", "two"),
            turn("assistant", "you said two"),
        ]
    );
}
