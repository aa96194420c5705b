//! The summary of a history: one line per turn, short enough to read at a
//! glance.

use vstd::prelude::*;
use crate::message::{MessageObject, Turn, turns_of};

verus! {

/// How many characters of a turn's content a summary line shows.
pub const SUMMARY_BUDGET: usize = 18;

/// The content as a line shows it: whole when it fits the budget, else its
/// first characters up to the budget.
pub open spec fn clipped(content: Seq<char>) -> Seq<char> {
    if content.len() > SUMMARY_BUDGET {
        content.take(SUMMARY_BUDGET as int)
    } else {
        content
    }
}

/// The line of one turn: its role, a colon and a space, the clipped content,
/// and the ellipsis that ends every line.
pub open spec fn line_of(turn: Turn) -> Seq<char> {
    turn.role + ": "@ + clipped(turn.content) + "...\n"@
}

/// The lines of a history, one per turn, in the order of the turns.
pub open spec fn lines_of(turns: Seq<Turn>) -> Seq<Seq<char>> {
    Seq::new(turns.len(), |i: int| line_of(turns[i]))
}

/// The summary: the lines of the history, one after the other.
pub open spec fn summary_of(turns: Seq<Turn>) -> Seq<char> {
    lines_of(turns).flatten()
}

/// The part of a content that a summary line shows.
pub fn clip(content: &str) -> (shown: &str)
    ensures
        shown@ == clipped(content@),
{
    if content.unicode_len() > SUMMARY_BUDGET {
        content.substring_char(0, SUMMARY_BUDGET)
    } else {
        content
    }
}

/// The summary line of one turn.
pub fn summary_line(turn: &MessageObject) -> (line: String)
    ensures
        line@ == line_of(turn@),
{
    let mut line = turn.role.clone();
    line.append(": ");
    line.append(clip(turn.content.as_str()));
    line.append("...\n");
    line
}

/// The summary of a history, a line for each of its turns, first turn first.
pub fn summarize(history: &Vec<MessageObject>) -> (summary: String)
    ensures
        summary@ == summary_of(turns_of(history@)),
{
    let ghost turns = turns_of(history@);
    let mut summary = String::new();
    let mut i: usize = 0;
    assert(lines_of(turns).take(0) =~= Seq::<Seq<char>>::empty());
    while i < history.len()
        invariant
            i <= history.len(),
            turns == turns_of(history@),
            summary@ == lines_of(turns).take(i as int).flatten(),
        decreases history.len() - i,
    {
        let line = summary_line(&history[i]);
        proof {
            let done = lines_of(turns).take(i as int);
            done.lemma_flatten_push(line@);
            assert(done.push(line@) =~= lines_of(turns).take(i + 1));
        }
        summary.append(line.as_str());
        i = i + 1;
    }
    assert(lines_of(turns).take(history.len() as int) =~= lines_of(turns));
    summary
}

/// The summary grows with the history: the line of a new turn goes to the end,
/// and what was there stays as it was.
pub proof fn lemma_summary_of_push(turns: Seq<Turn>, turn: Turn)
    ensures
        summary_of(turns.push(turn)) == summary_of(turns) + line_of(turn),
{
    lines_of(turns).lemma_flatten_push(line_of(turn));
    assert(lines_of(turns).push(line_of(turn)) =~= lines_of(turns.push(turn)));
}

/// A summary has one line for each turn, and the line at each place is that of
/// the turn at that place.
pub proof fn lemma_one_line_per_turn(turns: Seq<Turn>)
    ensures
        lines_of(turns).len() == turns.len(),
        forall|i: int| 0 <= i < turns.len() ==> #[trigger] lines_of(turns)[i] == line_of(turns[i]),
{
}

/// No line shows more of a content than the budget, and what it shows is where
/// the content starts: all of it when it fits, else exactly the budget.
pub proof fn lemma_clipped_within_budget(content: Seq<char>)
    ensures
        clipped(content).len() <= SUMMARY_BUDGET,
        clipped(content).is_prefix_of(content),
        content.len() <= SUMMARY_BUDGET ==> clipped(content) == content,
        content.len() > SUMMARY_BUDGET ==> clipped(content).len() == SUMMARY_BUDGET,
{
    assert(clipped(content) =~= content.subrange(0, clipped(content).len() as int));
}

/// The shape of a line: the role, two characters that part it from the content,
/// the clipped content, and four characters that end the line.
pub proof fn lemma_line_length(turn: Turn)
    ensures
        line_of(turn).len() == turn.role.len() + 2 + clipped(turn.content).len() + 4,
        line_of(turn).subrange(0, turn.role.len() as int) == turn.role,
        line_of(turn).last() == '\n',
{
    reveal_strlit(": ");
    reveal_strlit("...\n");
    assert(line_of(turn).subrange(0, turn.role.len() as int) =~= turn.role);
}

} // verus!
