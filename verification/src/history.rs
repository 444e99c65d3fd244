//! Conversation history formatting: prior turns compressed into the summary
//! used as grounding premise and LLM prompt context.

use vstd::prelude::*;
use vstd::string::StringExecFns;

verus! {

/// Individual turn in a multi-turn conversation.
#[derive(Debug)]
pub struct ConversationTurn {
    /// Role identifier ("user" or "assistant").
    pub role: String,
    /// Content of the message turn.
    pub content: String,
}

impl Clone for ConversationTurn {
    fn clone(&self) -> (r: Self)
        ensures
            r == *self,
    {
        ConversationTurn { role: self.role.clone(), content: self.content.clone() }
    }
}

/// The summary line of one turn: `role: content` and a newline.
pub open spec fn turn_line(role: Seq<char>, content: Seq<char>) -> Seq<char> {
    role + ": "@ + content + "\n"@
}

/// The summary of a sequence of turns: their lines, in order.
pub open spec fn summary_of(turns: Seq<ConversationTurn>) -> Seq<char>
    decreases turns.len(),
{
    if turns.len() == 0 {
        Seq::empty()
    } else {
        summary_of(turns.drop_last()) + turn_line(turns.last().role@, turns.last().content@)
    }
}

/// Helper container for managing conversation history summaries.
#[derive(Debug)]
pub struct ConversationHistory {
    turns: Vec<ConversationTurn>,
}

impl Clone for ConversationHistory {
    fn clone(&self) -> (r: Self)
        ensures
            r.spec_turns() == self.spec_turns(),
    {
        let mut turns: Vec<ConversationTurn> = Vec::new();
        let mut i: usize = 0;
        while i < self.turns.len()
            invariant
                i <= self.turns@.len(),
                turns@ == self.turns@.take(i as int),
            decreases self.turns@.len() - i,
        {
            turns.push(self.turns[i].clone());
            proof {
                assert(self.turns@.take(i as int + 1) =~= self.turns@.take(i as int).push(self.turns@[i as int]));
            }
            i = i + 1;
        }
        proof {
            assert(self.turns@.take(self.turns@.len() as int) =~= self.turns@);
        }
        ConversationHistory { turns }
    }
}

impl Default for ConversationHistory {
    fn default() -> (r: Self)
        ensures
            r.spec_turns() == Seq::<ConversationTurn>::empty(),
    {
        ConversationHistory::new()
    }
}

impl ConversationHistory {
    /// The turns recorded so far, in order.
    pub closed spec fn spec_turns(&self) -> Seq<ConversationTurn> {
        self.turns@
    }

    /// Constructs a new empty conversation history container.
    pub fn new() -> (r: Self)
        ensures
            r.spec_turns() == Seq::<ConversationTurn>::empty(),
    {
        ConversationHistory { turns: Vec::new() }
    }

    /// Adds a conversation turn to the history.
    pub fn push(&mut self, role: &str, content: &str)
        ensures
            final(self).spec_turns().len() == old(self).spec_turns().len() + 1,
            final(self).spec_turns().drop_last() == old(self).spec_turns(),
            final(self).spec_turns().last().role@ == role@,
            final(self).spec_turns().last().content@ == content@,
    {
        let ghost before = self.turns@;
        self.turns.push(ConversationTurn { role: String::from_str(role), content: String::from_str(content) });
        proof {
            assert(self.turns@.drop_last() =~= before);
        }
    }

    /// Formats the conversation history into the premise string: one
    /// `role: content` line per turn, in order.
    pub fn format_summary(&self) -> (s: String)
        ensures
            s@ == summary_of(self.spec_turns()),
    {
        let mut formatted = String::new();
        let mut i: usize = 0;
        while i < self.turns.len()
            invariant
                i <= self.turns@.len(),
                formatted@ == summary_of(self.turns@.take(i as int)),
            decreases self.turns@.len() - i,
        {
            let turn = &self.turns[i];
            formatted.append(turn.role.as_str());
            formatted.append(": ");
            formatted.append(turn.content.as_str());
            formatted.append("\n");
            proof {
                let t = self.turns@.take(i as int + 1);
                assert(t.drop_last() =~= self.turns@.take(i as int));
                assert(t.last() == self.turns@[i as int]);
            }
            i = i + 1;
        }
        proof {
            assert(self.turns@.take(self.turns@.len() as int) =~= self.turns@);
        }
        formatted
    }
}

/// Pushing a turn adds exactly its line to the end of the summary and leaves
/// the earlier lines unchanged.
pub proof fn law_push_appends_one_line(before: Seq<ConversationTurn>, after: Seq<ConversationTurn>)
    requires
        after.len() == before.len() + 1,
        after.drop_last() == before,
    ensures
        summary_of(after) == summary_of(before) + turn_line(after.last().role@, after.last().content@),
{
}

/// The summary of an empty history is empty.
pub proof fn law_empty_history_has_empty_summary()
    ensures
        summary_of(Seq::<ConversationTurn>::empty()) == Seq::<char>::empty(),
{
}

} // verus!
