//! The append-only conversation history and the bounded context built
//! from it: the role-tagged message list for the completion request, and
//! the flattened prompt text the agent variant hands to its tool.

use vstd::prelude::*;
use vstd::string::StringExecFns;

use crate::text::replace_newlines;
use crate::text::spec_replace_newlines;
use crate::text::str_eq;

verus! {

/// One history row: who said what in which conversation.
pub struct HistoryEntry {
    pub chat_id: i64,
    pub role: String,
    pub text: String,
    pub created_at: i64,
}

/// The `(role, text)` pairs of one conversation, in insertion order.
pub open spec fn spec_chat_pairs(s: Seq<HistoryEntry>, chat_id: i64) -> Seq<(Seq<char>, Seq<char>)>
    decreases s.len(),
{
    if s.len() == 0 {
        Seq::empty()
    } else {
        let rest = spec_chat_pairs(s.drop_last(), chat_id);
        if s.last().chat_id == chat_id {
            rest.push((s.last().role@, s.last().text@))
        } else {
            rest
        }
    }
}

/// The trailing window of a conversation: its last `limit` pairs.
pub open spec fn spec_recent_pairs(
    s: Seq<HistoryEntry>,
    chat_id: i64,
    limit: int,
) -> Seq<(Seq<char>, Seq<char>)> {
    let all = spec_chat_pairs(s, chat_id);
    if all.len() > limit {
        all.skip(all.len() - limit)
    } else {
        all
    }
}

/// The append-only conversation history.
pub struct HistoryStore {
    pub entries: Vec<HistoryEntry>,
}

impl HistoryStore {
    pub fn new() -> (h: HistoryStore)
        ensures
            h.entries@.len() == 0,
    {
        HistoryStore { entries: Vec::new() }
    }

    /// Append one turn; nothing already recorded is touched.
    pub fn append_history(&mut self, chat_id: i64, role: String, text: String, now: i64)
        ensures
            final(self).entries@.len() == old(self).entries@.len() + 1,
            final(self).entries@.drop_last() == old(self).entries@,
            final(self).entries@.last() == (HistoryEntry { chat_id, role, text, created_at: now }),
    {
        self.entries.push(HistoryEntry { chat_id, role, text, created_at: now });
        proof {
            assert(self.entries@.drop_last() =~= old(self).entries@);
        }
    }

    /// The last `limit` turns of one conversation, oldest first.
    pub fn recent_history(&self, chat_id: i64, limit: usize) -> (out: Vec<(String, String)>)
        ensures
            ({
                let recent = spec_recent_pairs(self.entries@, chat_id, limit as int);
                &&& out@.len() == recent.len()
                &&& forall|k: int|
                    0 <= k < recent.len() ==> (#[trigger] out@[k]).0@ == recent[k].0 && out@[k].1@
                        == recent[k].1
            }),
    {
        let n = self.entries.len();
        let mut matched: Vec<(String, String)> = Vec::new();
        let mut i: usize = 0;
        while i < n
            invariant
                n == self.entries@.len(),
                i <= n,
                matched@.len() == spec_chat_pairs(self.entries@.take(i as int), chat_id).len(),
                forall|k: int|
                    0 <= k < matched@.len() ==> {
                        let pairs = spec_chat_pairs(self.entries@.take(i as int), chat_id);
                        (#[trigger] matched@[k]).0@ == pairs[k].0 && matched@[k].1@ == pairs[k].1
                    },
            decreases n - i,
        {
            proof {
                assert(self.entries@.take(i + 1).drop_last() =~= self.entries@.take(i as int));
            }
            let entry = &self.entries[i];
            if entry.chat_id == chat_id {
                matched.push((entry.role.clone(), entry.text.clone()));
            }
            i += 1;
        }
        proof {
            assert(self.entries@.take(n as int) =~= self.entries@);
        }
        let total = matched.len();
        let start: usize = if total > limit {
            total - limit
        } else {
            0
        };
        let mut out: Vec<(String, String)> = Vec::new();
        let mut j: usize = start;
        while j < total
            invariant
                total == matched@.len(),
                start <= j <= total,
                start == if total > limit {
                    (total - limit) as int
                } else {
                    0int
                },
                out@.len() == j - start,
                forall|k: int|
                    0 <= k < out@.len() ==> (#[trigger] out@[k]).0@ == matched@[start + k].0@
                        && out@[k].1@ == matched@[start + k].1@,
            decreases total - j,
        {
            let pair = &matched[j];
            out.push((pair.0.clone(), pair.1.clone()));
            j += 1;
        }
        out
    }
}

/// A role-tagged message of the completion request.
pub struct ChatMessage {
    pub role: String,
    pub content: String,
}

/// How a stored role maps into the request: the assistant's own turns
/// keep their role, every other role is presented as the user's.
pub open spec fn spec_mapped_role(role: Seq<char>) -> Seq<char> {
    if role == "assistant"@ {
        "assistant"@
    } else {
        "user"@
    }
}

/// The bounded completion context: the system instruction, the recent
/// turns of the conversation with their roles mapped, and the current
/// message as the final user turn.
pub fn build_messages(
    history: &HistoryStore,
    chat_id: i64,
    user_text: &str,
    system_prompt: &str,
    history_window: usize,
) -> (out: Vec<ChatMessage>)
    ensures
        ({
            let recent = spec_recent_pairs(history.entries@, chat_id, history_window as int);
            &&& out@.len() == recent.len() + 2
            &&& out@[0].role@ == "system"@
            &&& out@[0].content@ == system_prompt@
            &&& forall|k: int|
                0 <= k < recent.len() ==> (#[trigger] out@[k + 1]).role@ == spec_mapped_role(
                    recent[k].0,
                ) && out@[k + 1].content@ == recent[k].1
            &&& out@[out@.len() - 1].role@ == "user"@
            &&& out@[out@.len() - 1].content@ == user_text@
        }),
{
    let recent = history.recent_history(chat_id, history_window);
    let mut out: Vec<ChatMessage> = Vec::new();
    out.push(
        ChatMessage { role: String::from_str("system"), content: system_prompt.to_owned() },
    );
    let total = recent.len();
    let mut k: usize = 0;
    while k < total
        invariant
            total == recent@.len(),
            k <= total,
            out@.len() == k + 1,
            out@[0].role@ == "system"@,
            out@[0].content@ == system_prompt@,
            forall|j: int|
                0 <= j < k ==> (#[trigger] out@[j + 1]).role@ == spec_mapped_role(recent@[j].0@)
                    && out@[j + 1].content@ == recent@[j].1@,
        decreases total - k,
    {
        let pair = &recent[k];
        let role = if str_eq(pair.0.as_str(), "assistant") {
            String::from_str("assistant")
        } else {
            String::from_str("user")
        };
        out.push(ChatMessage { role, content: pair.1.clone() });
        k += 1;
    }
    out.push(ChatMessage { role: String::from_str("user"), content: user_text.to_owned() });
    out
}

/// One flattened history line of the agent prompt.
pub open spec fn spec_history_line(pair: (Seq<char>, Seq<char>)) -> Seq<char> {
    pair.0 + ": "@ + spec_replace_newlines(pair.1)
}

/// The history lines joined with line breaks.
pub open spec fn spec_joined_lines(pairs: Seq<(Seq<char>, Seq<char>)>) -> Seq<char>
    decreases pairs.len(),
{
    if pairs.len() == 0 {
        Seq::empty()
    } else if pairs.len() == 1 {
        spec_history_line(pairs[0])
    } else {
        spec_joined_lines(pairs.drop_last()) + "\n"@ + spec_history_line(pairs.last())
    }
}

pub open spec fn spec_history_text(pairs: Seq<(Seq<char>, Seq<char>)>) -> Seq<char> {
    if pairs.len() == 0 {
        "(no history yet)"@
    } else {
        spec_joined_lines(pairs)
    }
}

/// The agent prompt around the flattened history and the current message.
pub open spec fn spec_agent_prompt(history_text: Seq<char>, user_text: Seq<char>) -> Seq<char> {
    "You are an autonomous coding agent controlled from Telegram.\nKeep replies concise and executable.\nIf asked to modify files, do it directly in the workspace.\n\nRecent chat history:\n"@
        + history_text + "\n\nCurrent user message:\n"@ + user_text + "\n"@
}

/// The prompt the agent variant hands to its tool: instructions, the
/// recent turns of the conversation flattened one per line, and the
/// current message.
pub fn build_prompt_with_history(
    history: &HistoryStore,
    chat_id: i64,
    user_text: &str,
    history_window: usize,
) -> (out: String)
    ensures
        out@ == spec_agent_prompt(
            spec_history_text(spec_recent_pairs(history.entries@, chat_id, history_window as int)),
            user_text@,
        ),
{
    let ghost recent_spec = spec_recent_pairs(history.entries@, chat_id, history_window as int);
    let recent = history.recent_history(chat_id, history_window);
    let total = recent.len();
    let mut history_text: String = String::new();
    if total == 0 {
        history_text = String::from_str("(no history yet)");
    } else {
        let mut k: usize = 0;
        while k < total
            invariant
                total == recent@.len(),
                total == recent_spec.len(),
                total > 0,
                k <= total,
                forall|j: int|
                    0 <= j < total ==> (#[trigger] recent@[j]).0@ == recent_spec[j].0
                        && recent@[j].1@ == recent_spec[j].1,
                k > 0 ==> history_text@ == spec_joined_lines(recent_spec.take(k as int)),
                k == 0 ==> history_text@ == Seq::<char>::empty(),
            decreases total - k,
        {
            if k > 0 {
                history_text.append("\n");
            }
            let pair = &recent[k];
            history_text.append(pair.0.as_str());
            history_text.append(": ");
            let flattened = replace_newlines(pair.1.as_str());
            history_text.append(flattened.as_str());
            proof {
                assert(recent_spec.take(k + 1).drop_last() =~= recent_spec.take(k as int));
                if k == 0 {
                    assert(history_text@ =~= spec_history_line(recent_spec[0]));
                    assert(recent_spec.take(1)[0] == recent_spec[0]);
                }
            }
            k += 1;
        }
        proof {
            assert(recent_spec.take(total as int) =~= recent_spec);
        }
    }
    let mut out = String::from_str(
        "You are an autonomous coding agent controlled from Telegram.\nKeep replies concise and executable.\nIf asked to modify files, do it directly in the workspace.\n\nRecent chat history:\n",
    );
    out.append(history_text.as_str());
    out.append("\n\nCurrent user message:\n");
    out.append(user_text);
    out.append("\n");
    proof {
        assert(out@ =~= spec_agent_prompt(spec_history_text(recent_spec), user_text@));
    }
    out
}

} // verus!
