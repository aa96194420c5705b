//! The conversation history: an ordered log that opens with the persona
//! instruction and only ever grows at its end.
//!
//! The history itself is a sequential value. A program that shares one history
//! among concurrent tasks puts it behind a lock and calls `snapshot` under the
//! read side and `append` under the write side; the lock makes every run equal
//! to some order of these calls, and the laws below hold of every order.

use vstd::prelude::*;
use vstd::multiset::Multiset;
use vstd::seq_lib::{lemma_multiset_commutative, to_multiset_contains, to_multiset_len};
use crate::message::{MessageObject, Turn, system_turn, turns_of, copy_messages};

verus! {

/// The instruction that tells the model which persona to speak in.
pub const PERSONA: &'static str =
    "You are a playful chatbot creating creative samples from prompts sent through discord.";

/// The persona instruction as a text.
pub open spec fn persona() -> Seq<char> {
    PERSONA@
}

/// The turn that every history opens with.
pub open spec fn seed_turn() -> Turn {
    system_turn(persona())
}

/// The history after the turns of `added` were appended to it one by one,
/// first to last.
pub open spec fn after_appends(history: Seq<Turn>, added: Seq<Turn>) -> Seq<Turn>
    decreases added.len(),
{
    if added.len() == 0 {
        history
    } else {
        after_appends(history, added.drop_last()).push(added.last())
    }
}

/// One call on a history: an append of a turn, or a snapshot.
pub enum StoreCall {
    Append(Turn),
    Snapshot,
}

/// The turns that a run of calls appends, in the order of the calls.
pub open spec fn appended(calls: Seq<StoreCall>) -> Seq<Turn>
    decreases calls.len(),
{
    if calls.len() == 0 {
        Seq::empty()
    } else {
        match calls.last() {
            StoreCall::Append(turn) => appended(calls.drop_last()).push(turn),
            StoreCall::Snapshot => appended(calls.drop_last()),
        }
    }
}

/// The history after a run of calls: an append puts its turn at the end, a
/// snapshot changes nothing.
pub open spec fn history_after(history: Seq<Turn>, calls: Seq<StoreCall>) -> Seq<Turn>
    decreases calls.len(),
{
    if calls.len() == 0 {
        history
    } else {
        match calls.last() {
            StoreCall::Append(turn) => history_after(history, calls.drop_last()).push(turn),
            StoreCall::Snapshot => history_after(history, calls.drop_last()),
        }
    }
}

/// What a snapshot returns that is taken when the first `made` calls of a run
/// were made: the history as those calls left it.
pub open spec fn snapshot_after(history: Seq<Turn>, calls: Seq<StoreCall>, made: int) -> Seq<Turn> {
    history_after(history, calls.take(made))
}

/// The log of all turns since the start: the seed, then every appended turn in
/// the order of the appends. Nothing is ever removed, edited or reordered.
pub struct ConversationHistory {
    /// The first turn. It is held apart from the rest so that the log can grow
    /// without the seed ever being out of its place.
    seed: MessageObject,
    /// The turns appended so far, oldest first.
    later: Vec<MessageObject>,
}

impl View for ConversationHistory {
    type V = Seq<Turn>;

    /// The turns of the history, oldest first.
    closed spec fn view(&self) -> Seq<Turn> {
        seq![self.seed@] + turns_of(self.later@)
    }
}

impl ConversationHistory {
    /// Every history opens with the seed turn, from its making on.
    #[verifier::type_invariant]
    spec fn opens_with_seed(self) -> bool {
        self.seed@ == seed_turn()
    }

    /// A fresh history: the seed turn and nothing else.
    pub fn new() -> (history: Self)
        ensures
            history@ == seq![seed_turn()],
    {
        let seed = MessageObject::system(String::from_str(PERSONA));
        let history = ConversationHistory { seed, later: Vec::new() };
        assert(history@ =~= seq![seed_turn()]);
        history
    }

    /// A copy of the whole history as it is now. The copy is the caller's own:
    /// what the caller does to it never reaches the history.
    pub fn snapshot(&self) -> (copy: Vec<MessageObject>)
        ensures
            turns_of(copy@) == self@,
            self@.len() >= 1,
            self@[0] == seed_turn(),
    {
        proof {
            use_type_invariant(self);
        }
        let mut copy: Vec<MessageObject> = Vec::new();
        copy.push(self.seed.clone());
        let mut rest = copy_messages(&self.later);
        copy.append(&mut rest);
        assert(turns_of(copy@) =~= self@);
        copy
    }

    /// Puts one turn at the end. Every turn that was there stays where it was.
    pub fn append(&mut self, turn: MessageObject)
        ensures
            final(self)@ == old(self)@.push(turn@),
    {
        proof {
            use_type_invariant(&*self);
        }
        let mut later: Vec<MessageObject> = Vec::new();
        std::mem::swap(&mut later, &mut self.later);
        later.push(turn);
        self.later = later;
        assert(self@ =~= old(self)@.push(turn@));
    }
}

/// Appending one by one is concatenation: the old turns stay in place, and the
/// new ones follow in the order of their appends, none missing and none twice.
pub proof fn lemma_appends_concatenate(history: Seq<Turn>, added: Seq<Turn>)
    ensures
        after_appends(history, added) == history + added,
    decreases added.len(),
{
    if added.len() == 0 {
        assert(history + added =~= history);
    } else {
        lemma_appends_concatenate(history, added.drop_last());
        assert((history + added.drop_last()).push(added.last()) =~= history + added);
    }
}

/// A run of appends and snapshots leaves the history it started from followed
/// by the turns it appended, in the order of the appends.
pub proof fn lemma_history_after_calls(history: Seq<Turn>, calls: Seq<StoreCall>)
    ensures
        history_after(history, calls) == history + appended(calls),
        history_after(history, calls) == after_appends(history, appended(calls)),
    decreases calls.len(),
{
    if calls.len() == 0 {
        assert(history + appended(calls) =~= history);
    } else {
        lemma_history_after_calls(history, calls.drop_last());
        assert(history_after(history, calls) =~= history + appended(calls));
    }
    lemma_appends_concatenate(history, appended(calls));
}

/// The turns appended up to some point of a run are the first of the turns
/// appended by the whole run.
pub proof fn lemma_appended_grows(calls: Seq<StoreCall>, made: int)
    requires
        0 <= made <= calls.len(),
    ensures
        appended(calls.take(made)).is_prefix_of(appended(calls)),
    decreases calls.len() - made,
{
    if made == calls.len() {
        assert(calls.take(made) =~= calls);
        assert(appended(calls) =~= appended(calls).subrange(0, appended(calls).len() as int));
    } else {
        lemma_appended_grows(calls, made + 1);
        assert(calls.take(made + 1).drop_last() =~= calls.take(made));
        let shorter = appended(calls.take(made));
        let longer = appended(calls.take(made + 1));
        assert(shorter =~= longer.subrange(0, shorter.len() as int));
        assert(shorter =~= appended(calls).subrange(0, shorter.len() as int));
    }
}

/// Append-only, for appends and snapshots in any interleaving: every snapshot
/// is the starting history followed by exactly the turns appended before it,
/// in the order of their appends, with no gap and none twice; it is a prefix
/// of every later snapshot and of the history at the end of the run.
pub proof fn lemma_snapshots_are_consistent(
    history: Seq<Turn>,
    calls: Seq<StoreCall>,
    earlier: int,
    later: int,
)
    requires
        0 <= earlier <= later <= calls.len(),
    ensures
        snapshot_after(history, calls, earlier) == history + appended(calls.take(earlier)),
        appended(calls.take(earlier)).is_prefix_of(appended(calls)),
        snapshot_after(history, calls, earlier).is_prefix_of(
            snapshot_after(history, calls, later),
        ),
        snapshot_after(history, calls, earlier).is_prefix_of(history_after(history, calls)),
{
    lemma_history_after_calls(history, calls.take(earlier));
    lemma_history_after_calls(history, calls.take(later));
    lemma_history_after_calls(history, calls);
    lemma_appended_grows(calls, earlier);
    lemma_appended_grows(calls.take(later), earlier);
    assert(calls.take(later).take(earlier) =~= calls.take(earlier));
    let first = history + appended(calls.take(earlier));
    let second = history + appended(calls.take(later));
    let last = history + appended(calls);
    assert(first =~= second.subrange(0, first.len() as int));
    assert(first =~= last.subrange(0, first.len() as int));
}

/// No append is lost, whatever the order: when the turns of `added` are
/// appended in any order `order`, the history grows by exactly their number and
/// holds what it held before together with each of them, as often as it was
/// appended. A turn that occurs once among them and was not in the history
/// before occurs exactly once afterwards.
pub proof fn lemma_appends_in_any_order(history: Seq<Turn>, added: Seq<Turn>, order: Seq<Turn>)
    requires
        order.to_multiset() == added.to_multiset(),
    ensures
        after_appends(history, order).len() == history.len() + added.len(),
        after_appends(history, order).to_multiset() == history.to_multiset().add(
            added.to_multiset(),
        ),
        forall|marker: Turn|
            added.to_multiset().count(marker) == 1 && !history.contains(marker)
                ==> #[trigger] after_appends(history, order).to_multiset().count(marker) == 1,
{
    lemma_appends_concatenate(history, order);
    lemma_multiset_commutative(history, order);
    let before: Multiset<Turn> = history.to_multiset();
    let after: Multiset<Turn> = after_appends(history, order).to_multiset();
    assert(after =~= before.add(added.to_multiset()));
    to_multiset_len(order);
    to_multiset_len(added);
    assert forall|marker: Turn|
        added.to_multiset().count(marker) == 1 && !history.contains(marker)
        implies #[trigger] after.count(marker) == 1 by {
        to_multiset_contains(history, marker);
    }
}

} // verus!
