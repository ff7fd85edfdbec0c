//! The agent loop's decisions around its external tool: whether to log
//! in, whether to invoke the tool at all, and how to turn a finished
//! tool run into the reply text, including the last stderr line when the
//! run failed.

use vstd::prelude::*;
use vstd::string::StrSliceExecFns;
use vstd::string::StringExecFns;

use crate::text::spec_trim;
use crate::text::trim_str;

verus! {

/// Where an agent loop resumes when it drops the whole backlog: right
/// after the last fetched item.
pub fn resolve_drop_all_offset(updates: &Vec<crate::worker::FetchedUpdate>) -> (r: i64)
    requires
        updates@.len() > 0 ==> updates@.last().update_id < i64::MAX,
    ensures
        updates@.len() == 0 ==> r == 0,
        updates@.len() > 0 ==> r == updates@.last().update_id + 1,
{
    let n = updates.len();
    if n == 0 {
        0
    } else {
        updates[n - 1].update_id + 1
    }
}

/// The tool login runs only when the tool is wanted, present, and a key
/// is at hand; in every other case startup goes on without it.
pub fn should_attempt_tool_login(
    use_codex: bool,
    cli_available: bool,
    have_api_key: bool,
) -> (r: bool)
    ensures
        r == (use_codex && cli_available && have_api_key),
{
    use_codex && cli_available && have_api_key
}

/// What the agent does with a prompt: answer with an echo when the tool
/// is switched off, report the missing tool, or actually run it.
pub enum AgentInvocation {
    Reply { text: String },
    RunTool,
}

pub fn plan_agent_invocation(use_codex: bool, cli_available: bool, prompt: &str) -> (r:
    AgentInvocation)
    ensures
        !use_codex ==> match r {
            AgentInvocation::Reply { text } => text@ == "Echo: "@ + prompt@,
            _ => false,
        },
        use_codex && !cli_available ==> match r {
            AgentInvocation::Reply { text } => text@
                == "Agent error: codex CLI not found on PATH."@,
            _ => false,
        },
        use_codex && cli_available ==> r is RunTool,
{
    if !use_codex {
        let mut text = String::from_str("Echo: ");
        text.append(prompt);
        AgentInvocation::Reply { text }
    } else if !cli_available {
        AgentInvocation::Reply {
            text: String::from_str("Agent error: codex CLI not found on PATH."),
        }
    } else {
        AgentInvocation::RunTool
    }
}

/// The trailing run of a text that holds no line break.
pub open spec fn spec_after_last_newline(s: Seq<char>) -> Seq<char>
    decreases s.len(),
{
    if s.len() == 0 {
        s
    } else if s.last() == '\n' {
        Seq::empty()
    } else {
        spec_after_last_newline(s.drop_last()).push(s.last())
    }
}

/// The last line of a text, as line iteration yields it: nothing for an
/// empty text, otherwise the text after the final line break, a trailing
/// break first dropped.
pub open spec fn spec_last_line(s: Seq<char>) -> Option<Seq<char>> {
    if s.len() == 0 {
        None
    } else if s.last() == '\n' {
        Some(spec_after_last_newline(s.drop_last()))
    } else {
        Some(spec_after_last_newline(s))
    }
}

proof fn lemma_after_last_newline_range(s: Seq<char>, j: int)
    requires
        0 <= j <= s.len(),
        forall|k: int| j <= k < s.len() ==> #[trigger] s[k] != '\n',
        j == 0 || s[j - 1] == '\n',
    ensures
        spec_after_last_newline(s) == s.skip(j),
    decreases s.len() - j,
{
    if j == s.len() {
        if s.len() == 0 {
            assert(spec_after_last_newline(s) =~= s.skip(j));
        } else {
            assert(s.last() == '\n');
            assert(s.skip(j) =~= Seq::<char>::empty());
        }
    } else {
        let t = s.drop_last();
        assert(s.last() != '\n');
        if j == t.len() {
            if j == 0 {
                assert(spec_after_last_newline(t) =~= t.skip(j));
            } else {
                assert(t.last() == '\n') by {
                    assert(t[j - 1] == s[j - 1]);
                }
                assert(spec_after_last_newline(t) =~= t.skip(j));
            }
        } else {
            lemma_after_last_newline_range(t, j);
        }
        assert(spec_after_last_newline(s) =~= t.skip(j).push(s.last()));
        assert(t.skip(j).push(s.last()) =~= s.skip(j));
    }
}

/// The last line of the text, as `str::lines` would yield it.
pub fn last_line(s: &str) -> (r: Option<String>)
    ensures
        match r {
            Some(line) => spec_last_line(s@) == Some(line@),
            None => spec_last_line(s@) is None,
        },
{
    let len = s.unicode_len();
    if len == 0 {
        return None;
    }
    let end: usize = if s.get_char(len - 1) == '\n' {
        len - 1
    } else {
        len
    };
    let mut j: usize = end;
    while j > 0 && s.get_char(j - 1) != '\n'
        invariant
            len == s@.len(),
            end <= len,
            j <= end,
            forall|k: int| j <= k < end ==> #[trigger] s@[k] != '\n',
        decreases j,
    {
        j -= 1;
    }
    let line = s.substring_char(j, end).to_owned();
    proof {
        let ghost t = s@.take(end as int);
        assert(forall|k: int| j <= k < t.len() ==> #[trigger] t[k] != '\n');
        if j > 0 {
            assert(t[j - 1] == s@[j - 1]);
        }
        lemma_after_last_newline_range(t, j as int);
        assert(t.skip(j as int) =~= s@.subrange(j as int, end as int));
        if end < len {
            assert(s@.last() == '\n');
            assert(t =~= s@.drop_last());
        } else {
            assert(t =~= s@);
            assert(s@.last() != '\n');
        }
    }
    Some(line)
}

/// The reply recorded when the tool run failed: the trimmed last stderr
/// line, or a fixed note when stderr was empty.
pub open spec fn spec_tool_failure_reply(stderr_text: Seq<char>) -> Seq<char> {
    let detail = match spec_last_line(stderr_text) {
        Some(line) => spec_trim(line),
        None => spec_trim("unknown codex error"@),
    };
    "Agent error: Codex failed ("@ + detail + ")."@
}

pub fn tool_failure_reply(stderr_text: &str) -> (r: String)
    ensures
        r@ == spec_tool_failure_reply(stderr_text@),
{
    let detail = match last_line(stderr_text) {
        Some(line) => trim_str(line.as_str()),
        None => trim_str("unknown codex error"),
    };
    let mut out = String::from_str("Agent error: Codex failed (");
    out.append(detail.as_str());
    out.append(").");
    proof {
        assert(out@ =~= spec_tool_failure_reply(stderr_text@));
    }
    out
}

/// Judge a finished tool run: a successful exit with a reply that is
/// more than white space stands as the reply; anything else becomes the
/// failure note built from stderr.
pub fn agent_reply_from_run(status_ok: bool, reply: &str, stderr_text: &str) -> (r: String)
    ensures
        status_ok && spec_trim(reply@).len() > 0 ==> r@ == reply@,
        !(status_ok && spec_trim(reply@).len() > 0) ==> r@ == spec_tool_failure_reply(
            stderr_text@,
        ),
{
    if status_ok {
        let trimmed = trim_str(reply);
        if trimmed.as_str().unicode_len() > 0 {
            return reply.to_owned();
        }
    }
    tool_failure_reply(stderr_text)
}

} // verus!
