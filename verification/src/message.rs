//! Turns: the role-tagged utterances that a conversation is made of.

use vstd::prelude::*;

verus! {

/// One utterance as mathematics: who spoke, and what was said.
pub struct Turn {
    pub role: Seq<char>,
    pub content: Seq<char>,
}

/// The role of the persona instruction that opens every history.
pub open spec fn system_role() -> Seq<char> {
    "system"@
}

/// The role of a turn that came in from the chat room.
pub open spec fn user_role() -> Seq<char> {
    "user"@
}

/// The role of a turn that the completion service wrote.
pub open spec fn assistant_role() -> Seq<char> {
    "assistant"@
}

/// The turn in which the system says `content`.
pub open spec fn system_turn(content: Seq<char>) -> Turn {
    Turn { role: system_role(), content }
}

/// The turn in which the user says `content`.
pub open spec fn user_turn(content: Seq<char>) -> Turn {
    Turn { role: user_role(), content }
}

/// The turn in which the assistant says `content`.
pub open spec fn assistant_turn(content: Seq<char>) -> Turn {
    Turn { role: assistant_role(), content }
}

/// The turns that a sequence of messages stands for, in the same order.
pub open spec fn turns_of(messages: Seq<MessageObject>) -> Seq<Turn> {
    Seq::new(messages.len(), |i: int| messages[i]@)
}

/// One turn as it is stored and sent. A message is never edited after it was
/// made: the library only copies, appends and reads them.
#[derive(Debug, PartialEq, Eq)]
pub struct MessageObject {
    pub role: String,
    pub content: String,
}

impl View for MessageObject {
    type V = Turn;

    open spec fn view(&self) -> Turn {
        Turn { role: self.role@, content: self.content@ }
    }
}

impl Clone for MessageObject {
    /// A copy with the same role and the same content.
    fn clone(&self) -> (copy: Self)
        ensures
            copy == *self,
    {
        MessageObject { role: self.role.clone(), content: self.content.clone() }
    }
}

impl Default for MessageObject {
    /// The greeting of a user: what a request holds when nothing else was given.
    fn default() -> (message: Self)
        ensures
            message@ == user_turn("Hello!"@),
    {
        MessageObject { role: String::from_str("user"), content: String::from_str("Hello!") }
    }
}

impl MessageObject {
    /// A turn of the user with the given text.
    pub fn new(s: String) -> (message: Self)
        ensures
            message@ == user_turn(s@),
            message.content == s,
    {
        MessageObject { role: String::from_str("user"), content: s }
    }

    /// A turn of the system with the given instruction.
    pub fn system(content: String) -> (message: Self)
        ensures
            message@ == system_turn(content@),
            message.content == content,
    {
        MessageObject { role: String::from_str("system"), content }
    }

    /// A turn of the assistant with the given reply.
    pub fn assistant(content: String) -> (message: Self)
        ensures
            message@ == assistant_turn(content@),
            message.content == content,
    {
        MessageObject { role: String::from_str("assistant"), content }
    }
}

/// A copy of a list of messages: the same turns in the same order, in storage
/// of its own.
pub fn copy_messages(messages: &Vec<MessageObject>) -> (copy: Vec<MessageObject>)
    ensures
        copy@ == messages@,
{
    let mut copy: Vec<MessageObject> = Vec::new();
    let mut i: usize = 0;
    while i < messages.len()
        invariant
            i <= messages.len(),
            copy@ == messages@.take(i as int),
        decreases messages.len() - i,
    {
        copy.push(messages[i].clone());
        assert(messages@.take(i as int).push(messages@[i as int]) =~= messages@.take(i + 1));
        i = i + 1;
    }
    assert(messages@.take(messages.len() as int) =~= messages@);
    copy
}

} // verus!
