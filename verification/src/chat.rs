//! One chat exchange as a protocol: read the history, extend it with the new
//! user turn, call the completion service, commit both turns, emit the reply.
//!
//! The library decides; the program around it acts. `begin` and `step` say
//! what to do next, the program does it (takes the snapshot, makes the call,
//! appends, sends) and reports back what happened.

use vstd::prelude::*;
use crate::message::{MessageObject, Turn, user_turn, assistant_turn, turns_of};
use crate::history::{after_appends, lemma_appends_concatenate};

verus! {

/// Where an exchange stands, as mathematics.
pub enum Phase {
    /// The inbound text is known; the snapshot of the history is awaited.
    Reading { text: Seq<char> },
    /// The completion call is under way for this user turn.
    Calling { user: Turn },
    /// Both turns were handed out for commit and the reply for sending.
    Done,
    /// The call failed; nothing was committed.
    Aborted,
}

/// What the program reports back, as mathematics.
pub enum Event {
    /// The snapshot that was asked for.
    Snapshot(Seq<Turn>),
    /// The completion call returned this reply.
    Reply(Seq<char>),
    /// The completion call failed outright.
    CallFailed,
}

/// What the program is asked to do, as mathematics.
pub enum Action {
    /// Take a snapshot of the history.
    Read,
    /// Ask the completion service to continue these turns.
    Call(Seq<Turn>),
    /// Append this turn to the history.
    Append(Turn),
    /// Send this text to the channel that the message came from.
    Emit(Seq<char>),
}

/// The protocol: the phase that follows and the actions to perform, in order.
/// An event that the phase does not wait for changes nothing and asks nothing.
pub open spec fn transition(phase: Phase, event: Event) -> (Phase, Seq<Action>) {
    match (phase, event) {
        (Phase::Reading { text }, Event::Snapshot(history)) => (
            Phase::Calling { user: user_turn(text) },
            seq![Action::Call(history.push(user_turn(text)))],
        ),
        (Phase::Calling { user }, Event::Reply(reply)) => (
            Phase::Done,
            seq![Action::Append(user), Action::Append(assistant_turn(reply)), Action::Emit(reply)],
        ),
        (Phase::Calling { user }, Event::CallFailed) => (Phase::Aborted, Seq::empty()),
        _ => (phase, Seq::empty()),
    }
}

/// The turns that a list of actions appends, in order.
pub open spec fn committed(actions: Seq<Action>) -> Seq<Turn>
    decreases actions.len(),
{
    if actions.len() == 0 {
        Seq::empty()
    } else {
        match actions.last() {
            Action::Append(turn) => committed(actions.drop_last()).push(turn),
            _ => committed(actions.drop_last()),
        }
    }
}

/// Where an exchange stands.
#[derive(Debug, PartialEq, Eq)]
pub enum ChatState {
    Reading { text: String },
    Calling { user: MessageObject },
    Done,
    Aborted,
}

/// What the program reports back.
#[derive(Debug, PartialEq, Eq)]
pub enum ChatEvent {
    Snapshot(Vec<MessageObject>),
    Reply(String),
    CallFailed,
}

/// What the program is asked to do.
#[derive(Debug, PartialEq, Eq)]
pub enum ChatAction {
    Read,
    Call(Vec<MessageObject>),
    Append(MessageObject),
    Emit(String),
}

impl View for ChatState {
    type V = Phase;

    open spec fn view(&self) -> Phase {
        match self {
            ChatState::Reading { text } => Phase::Reading { text: text@ },
            ChatState::Calling { user } => Phase::Calling { user: user@ },
            ChatState::Done => Phase::Done,
            ChatState::Aborted => Phase::Aborted,
        }
    }
}

impl View for ChatEvent {
    type V = Event;

    open spec fn view(&self) -> Event {
        match self {
            ChatEvent::Snapshot(history) => Event::Snapshot(turns_of(history@)),
            ChatEvent::Reply(reply) => Event::Reply(reply@),
            ChatEvent::CallFailed => Event::CallFailed,
        }
    }
}

impl View for ChatAction {
    type V = Action;

    open spec fn view(&self) -> Action {
        match self {
            ChatAction::Read => Action::Read,
            ChatAction::Call(turns) => Action::Call(turns_of(turns@)),
            ChatAction::Append(turn) => Action::Append(turn@),
            ChatAction::Emit(text) => Action::Emit(text@),
        }
    }
}

/// The actions that a list of requests stands for, in the same order.
pub open spec fn actions_of(actions: Seq<ChatAction>) -> Seq<Action> {
    Seq::new(actions.len(), |i: int| actions[i]@)
}

/// Opens an exchange for an inbound message: the first thing to do is to read
/// the history.
pub fn begin(text: String) -> (opened: (ChatState, Vec<ChatAction>))
    ensures
        opened.0@ == (Phase::Reading { text: text@ }),
        actions_of(opened.1@) == seq![Action::Read],
{
    let mut actions: Vec<ChatAction> = Vec::new();
    actions.push(ChatAction::Read);
    assert(actions_of(actions@) =~= seq![Action::Read]);
    (ChatState::Reading { text }, actions)
}

/// Takes the exchange one event further.
pub fn step(state: ChatState, event: ChatEvent) -> (next: (ChatState, Vec<ChatAction>))
    ensures
        (next.0@, actions_of(next.1@)) == transition(state@, event@),
{
    let mut actions: Vec<ChatAction> = Vec::new();
    match state {
        ChatState::Reading { text } => match event {
            ChatEvent::Snapshot(history) => {
                let user = MessageObject::new(text);
                let mut turns = history;
                turns.push(user.clone());
                assert(turns_of(turns@) =~= turns_of(history@).push(user@));
                actions.push(ChatAction::Call(turns));
                assert(actions_of(actions@) =~= seq![
                    Action::Call(turns_of(history@).push(user_turn(text@))),
                ]);
                (ChatState::Calling { user }, actions)
            },
            _ => {
                assert(actions_of(actions@) =~= Seq::empty());
                (ChatState::Reading { text }, actions)
            },
        },
        ChatState::Calling { user } => match event {
            ChatEvent::Reply(reply) => {
                let ghost spoken = user@;
                actions.push(ChatAction::Append(user));
                actions.push(ChatAction::Append(MessageObject::assistant(reply.clone())));
                actions.push(ChatAction::Emit(reply));
                assert(actions_of(actions@) =~= seq![
                    Action::Append(spoken),
                    Action::Append(assistant_turn(reply@)),
                    Action::Emit(reply@),
                ]);
                (ChatState::Done, actions)
            },
            ChatEvent::CallFailed => {
                assert(actions_of(actions@) =~= Seq::empty());
                (ChatState::Aborted, actions)
            },
            _ => {
                assert(actions_of(actions@) =~= Seq::empty());
                (ChatState::Calling { user }, actions)
            },
        },
        ChatState::Done => {
            assert(actions_of(actions@) =~= Seq::empty());
            (ChatState::Done, actions)
        },
        ChatState::Aborted => {
            assert(actions_of(actions@) =~= Seq::empty());
            (ChatState::Aborted, actions)
        },
    }
}

/// What one more action adds to what a list of actions commits.
proof fn lemma_committed_push(actions: Seq<Action>, action: Action)
    ensures
        committed(actions.push(action)) == match action {
            Action::Append(turn) => committed(actions).push(turn),
            _ => committed(actions),
        },
{
    assert(actions.push(action).drop_last() =~= actions);
}

/// A single action that is no append commits nothing.
proof fn lemma_committed_of_other(action: Action)
    requires
        !(action is Append),
    ensures
        committed(seq![action]) == Seq::<Turn>::empty(),
{
    let none = Seq::<Action>::empty();
    assert(committed(none) =~= Seq::<Turn>::empty());
    lemma_committed_push(none, action);
    assert(none.push(action) =~= seq![action]);
}

/// What a list of three actions commits when the first two are appends and the
/// third is not.
proof fn lemma_committed_of_exchange(first: Turn, second: Turn, last: Action)
    requires
        !(last is Append),
    ensures
        committed(seq![Action::Append(first), Action::Append(second), last]) == seq![first, second],
{
    let none = Seq::<Action>::empty();
    let one = none.push(Action::Append(first));
    let two = one.push(Action::Append(second));
    assert(committed(none) =~= Seq::<Turn>::empty());
    lemma_committed_push(none, Action::Append(first));
    lemma_committed_push(one, Action::Append(second));
    lemma_committed_push(two, last);
    assert(two.push(last) =~= seq![Action::Append(first), Action::Append(second), last]);
    assert(Seq::<Turn>::empty().push(first).push(second) =~= seq![first, second]);
}

/// An exchange whose call succeeds: the service is asked to continue the
/// snapshot followed by the new user turn, and afterwards the history holds what
/// it held before, then the user turn, then the assistant's reply, and the reply
/// is what goes out to the channel.
pub proof fn lemma_exchange_commits_in_order(
    history: Seq<Turn>,
    text: Seq<char>,
    reply: Seq<char>,
)
    ensures
        ({
            let (calling, asked) = transition(Phase::Reading { text }, Event::Snapshot(history));
            let (done, answered) = transition(calling, Event::Reply(reply));
            &&& asked == seq![Action::Call(history.push(user_turn(text)))]
            &&& done == Phase::Done
            &&& answered == seq![
                Action::Append(user_turn(text)),
                Action::Append(assistant_turn(reply)),
                Action::Emit(reply),
            ]
            &&& committed(asked) == Seq::<Turn>::empty()
            &&& after_appends(history, committed(answered)) == history.push(user_turn(text)).push(
                assistant_turn(reply),
            )
        }),
{
    let (calling, asked) = transition(Phase::Reading { text }, Event::Snapshot(history));
    let (done, answered) = transition(calling, Event::Reply(reply));
    lemma_committed_of_other(Action::Call(history.push(user_turn(text))));
    lemma_committed_of_exchange(user_turn(text), assistant_turn(reply), Action::Emit(reply));
    lemma_appends_concatenate(history, committed(answered));
    assert(history + seq![user_turn(text), assistant_turn(reply)] =~= history.push(
        user_turn(text),
    ).push(assistant_turn(reply)));
}

/// An exchange whose call fails outright ends there: nothing is appended and
/// nothing is sent.
pub proof fn lemma_failed_call_commits_nothing(history: Seq<Turn>, text: Seq<char>)
    ensures
        ({
            let (calling, asked) = transition(Phase::Reading { text }, Event::Snapshot(history));
            let (aborted, left) = transition(calling, Event::CallFailed);
            &&& aborted == Phase::Aborted
            &&& left == Seq::<Action>::empty()
            &&& after_appends(history, committed(asked) + committed(left)) == history
        }),
{
    let (calling, asked) = transition(Phase::Reading { text }, Event::Snapshot(history));
    let (aborted, left) = transition(calling, Event::CallFailed);
    lemma_committed_of_other(Action::Call(history.push(user_turn(text))));
    assert(committed(left) =~= Seq::<Turn>::empty());
    assert(committed(asked) + committed(left) =~= Seq::<Turn>::empty());
}

/// No step commits half an exchange: whatever the phase and the event, the
/// actions either append nothing, or they append the user turn and then the
/// assistant's reply to it, and that only when a call under way has returned.
pub proof fn lemma_commits_are_whole_exchanges(phase: Phase, event: Event)
    ensures
        ({
            let (_, actions) = transition(phase, event);
            match (phase, event) {
                (Phase::Calling { user }, Event::Reply(reply)) => committed(actions) == seq![
                    user,
                    assistant_turn(reply),
                ],
                _ => committed(actions) == Seq::<Turn>::empty(),
            }
        }),
{
    let (_, actions) = transition(phase, event);
    match (phase, event) {
        (Phase::Calling { user }, Event::Reply(reply)) => {
            lemma_committed_of_exchange(user, assistant_turn(reply), Action::Emit(reply));
        },
        (Phase::Reading { text }, Event::Snapshot(history)) => {
            lemma_committed_of_other(Action::Call(history.push(user_turn(text))));
        },
        _ => {
            assert(committed(actions) =~= Seq::<Turn>::empty());
        },
    }
}

/// The service is never asked to continue nothing: a call carries at least one
/// turn, and its last turn is the user's, made from the inbound text.
pub proof fn lemma_calls_end_with_the_user_turn(phase: Phase, event: Event)
    ensures
        ({
            let (_, actions) = transition(phase, event);
            forall|i: int|
                0 <= i < actions.len() ==> (#[trigger] actions[i] matches Action::Call(turns) ==> {
                    &&& phase matches Phase::Reading { text }
                    &&& turns.len() >= 1
                    &&& turns.last() == user_turn(text)
                })
        }),
{
}

} // verus!
