//! The worker's per-iteration decisions: where to resume the inbound
//! stream after a cold start, how long to wait when polling, what one
//! fetched update does to the durable queue and the audit trail, how a
//! processed task reaches its terminal state, and when the worker
//! terminates itself on purpose.

use vstd::prelude::*;
use vstd::string::StrSliceExecFns;
use vstd::string::StringExecFns;

use crate::audit::AuditLog;
use crate::audit::AuditPhase;
use crate::audit::AuditStatus;
use crate::audit::RunContext;
use crate::audit::spec_logged_event;
use crate::queue::InboxQueue;
use crate::queue::QueueTask;
use crate::queue::Task;
use crate::queue::TaskStatus;
use crate::queue::spec_has_update;
use crate::queue::spec_failed_row;
use crate::text::spec_min_usize;
use crate::text::spec_trim;
use crate::text::trim_str;
use crate::text::truncate_for_telegram;

verus! {

/// Exit code the worker uses when it terminates itself on purpose after a
/// configured number of handled tasks.
pub const WORKER_SELF_EXIT_CODE: i32 = 17;

/// One message of a fetched update, reduced to what the pipeline reads.
pub struct FetchedMessage {
    pub chat_id: i64,
    pub text: Option<String>,
    pub date: i64,
}

/// One item of the inbound stream.
pub struct FetchedUpdate {
    pub update_id: i64,
    pub message: Option<FetchedMessage>,
}

/// The persisted offset cursor, read back: only a well-formed signed
/// decimal counts as a saved position.
pub fn parse_stored_offset(raw: &Option<String>) -> (r: Option<i64>)
    ensures
        match *raw {
            None => r is None,
            Some(v) => match r {
                Some(parsed) => crate::text::spec_parses_as_i64(v@) && parsed as int
                    == crate::text::spec_i64_value(v@),
                None => !crate::text::spec_parses_as_i64(v@),
            },
        },
{
    match raw {
        None => None,
        Some(v) => crate::text::parse_i64(v.as_str()),
    }
}

/// What a fetch hands the pipeline: the fetched items when the source
/// answered positively, nothing otherwise.
pub fn accept_updates(source_ok: bool, items: Vec<FetchedUpdate>) -> (r: Vec<FetchedUpdate>)
    ensures
        source_ok ==> r == items,
        !source_ok ==> r@.len() == 0,
{
    if source_ok {
        items
    } else {
        Vec::new()
    }
}

/// Poll wait for the message source: drain the durable queue before
/// fetching more work, so poll without blocking while anything is
/// runnable.
pub fn choose_poll_timeout(has_runnable: bool, configured_timeout: u64) -> (r: u64)
    ensures
        r == if has_runnable {
            0u64
        } else {
            configured_timeout
        },
{
    if has_runnable {
        0
    } else {
        configured_timeout
    }
}

/// The worker exits with its distinguished code after every `every`-th
/// attempted task, and never when the interval is unset.
pub fn should_self_terminate(handled_count: u64, every: u64) -> (r: bool)
    ensures
        r == (every > 0 && handled_count % every == 0),
{
    every > 0 && handled_count % every == 0
}

/// A window length converted to a signed offset the way a plain `as`
/// cast converts it: values beyond the signed range wrap.
pub open spec fn spec_wrap_u64_to_i64(w: nat) -> int {
    if w <= i64::MAX {
        w as int
    } else {
        w - 0x1_0000_0000_0000_0000
    }
}

fn wrap_u64_to_i64(w: u64) -> (r: i64)
    ensures
        r as int == spec_wrap_u64_to_i64(w as nat),
{
    if w <= 0x7fff_ffff_ffff_ffff {
        w as i64
    } else {
        ((w - 0x8000_0000_0000_0000) as i64) + i64::MIN
    }
}

/// Subtraction clamped to the signed 64-bit range.
pub open spec fn spec_saturating_sub_i64(a: int, b: int) -> int {
    if a - b > i64::MAX {
        i64::MAX as int
    } else if a - b < i64::MIN {
        i64::MIN as int
    } else {
        a - b
    }
}

fn saturating_sub_i64(a: i64, b: i64) -> (r: i64)
    ensures
        r as int == spec_saturating_sub_i64(a as int, b as int),
{
    if b >= 0 {
        if a >= i64::MIN + b {
            a - b
        } else {
            i64::MIN
        }
    } else {
        if a <= i64::MAX + b {
            a - b
        } else {
            i64::MAX
        }
    }
}

/// The moment before which a backlog item counts as stale.
pub open spec fn spec_backlog_cutoff(now: int, pending_window_seconds: nat) -> int {
    spec_saturating_sub_i64(now, spec_wrap_u64_to_i64(pending_window_seconds))
}

/// Whether a fetched item falls inside the pending window.
pub open spec fn spec_in_window(u: FetchedUpdate, cutoff: int) -> bool {
    match u.message {
        Some(m) => m.date >= cutoff,
        None => false,
    }
}

/// The fetched items inside the window, in stream order.
pub open spec fn spec_window_filtered(s: Seq<FetchedUpdate>, cutoff: int) -> Seq<FetchedUpdate>
    decreases s.len(),
{
    if s.len() == 0 {
        Seq::empty()
    } else {
        let rest = spec_window_filtered(s.drop_last(), cutoff);
        if spec_in_window(s.last(), cutoff) {
            rest.push(s.last())
        } else {
            rest
        }
    }
}

/// Where a cold start resumes the inbound stream, given one zero-wait
/// fetch of the backlog: nothing fetched starts from the beginning;
/// a backlog with nothing recent skips past everything already fetched;
/// otherwise the earliest item inside the pending window, after
/// discarding all but the most recent `pending_max_messages` in-window
/// items, is replayed first.
pub open spec fn spec_bootstrap_offset(
    s: Seq<FetchedUpdate>,
    now: int,
    pending_window_seconds: nat,
    pending_max_messages: nat,
) -> int {
    if s.len() == 0 {
        0
    } else {
        let cutoff = spec_backlog_cutoff(now, pending_window_seconds);
        let in_window = spec_window_filtered(s, cutoff);
        if in_window.len() == 0 {
            s.last().update_id + 1
        } else if in_window.len() > pending_max_messages {
            if pending_max_messages == 0 {
                0
            } else {
                in_window[in_window.len() - pending_max_messages].update_id as int
            }
        } else {
            in_window[0].update_id as int
        }
    }
}

pub fn resolve_bootstrap_offset(
    updates: &Vec<FetchedUpdate>,
    now: i64,
    pending_window_seconds: u64,
    pending_max_messages: usize,
) -> (r: i64)
    requires
        updates@.len() > 0 ==> updates@.last().update_id < i64::MAX,
    ensures
        r as int == spec_bootstrap_offset(
            updates@,
            now as int,
            pending_window_seconds as nat,
            pending_max_messages as nat,
        ),
{
    let n = updates.len();
    if n == 0 {
        return 0;
    }
    let cutoff = saturating_sub_i64(now, wrap_u64_to_i64(pending_window_seconds));
    let mut in_window_ids: Vec<i64> = Vec::new();
    let mut i: usize = 0;
    while i < n
        invariant
            n == updates@.len(),
            i <= n,
            cutoff as int == spec_backlog_cutoff(now as int, pending_window_seconds as nat),
            in_window_ids@.len() == spec_window_filtered(
                updates@.take(i as int),
                cutoff as int,
            ).len(),
            forall|k: int|
                0 <= k < in_window_ids@.len() ==> #[trigger] in_window_ids@[k]
                    == spec_window_filtered(updates@.take(i as int), cutoff as int)[k].update_id,
        decreases n - i,
    {
        proof {
            assert(updates@.take(i + 1).drop_last() =~= updates@.take(i as int));
        }
        let in_window = match &updates[i].message {
            Some(m) => m.date >= cutoff,
            None => false,
        };
        if in_window {
            in_window_ids.push(updates[i].update_id);
        }
        i += 1;
    }
    proof {
        assert(updates@.take(n as int) =~= updates@);
    }
    let found = in_window_ids.len();
    if found == 0 {
        updates[n - 1].update_id + 1
    } else if found > pending_max_messages {
        if pending_max_messages == 0 {
            0
        } else {
            in_window_ids[found - pending_max_messages]
        }
    } else {
        in_window_ids[0]
    }
}

/// What one fetched update did to the pipeline.
#[derive(PartialEq, Eq, Structural, Debug)]
pub enum IngestOutcome {
    /// No message, no text, or only white space: nothing to run.
    Skipped,
    /// The update identifier is already queued; re-ingestion is a no-op.
    Duplicate,
    /// A fresh row was created and its first audit events written.
    Inserted { task_id: i64 },
}

/// The text an update contributes, if it contributes at all.
pub open spec fn spec_ingestible_text(u: FetchedUpdate) -> Option<Seq<char>> {
    match u.message {
        None => None,
        Some(m) => match m.text {
            None => None,
            Some(t) => if spec_trim(t@).len() == 0 {
                None
            } else {
                Some(t@)
            },
        },
    }
}

/// Make one fetched update durable: ignore it without a usable text,
/// ignore a duplicate silently, and otherwise create the queue row and
/// write its `ingress` and `queued` audit events. The caller persists the
/// advanced offset before calling this, so the offset always moves before
/// the task reaches any state.
pub fn ingest_update(
    queue: &mut InboxQueue,
    audit: &mut AuditLog,
    ctx: &RunContext,
    update: &FetchedUpdate,
    now: i64,
) -> (r: IngestOutcome)
    requires
        old(queue).wf(),
        old(queue).tasks@.len() < 0x7fff_ffff_ffff_ffff,
    ensures
        final(queue).wf(),
        match spec_ingestible_text(*update) {
            None => {
                &&& r == IngestOutcome::Skipped
                &&& final(queue).tasks@ == old(queue).tasks@
                &&& final(audit).events@ == old(audit).events@
            },
            Some(text) => {
                if spec_has_update(old(queue).tasks@, update.update_id) {
                    &&& r == IngestOutcome::Duplicate
                    &&& final(queue).tasks@ == old(queue).tasks@
                    &&& final(audit).events@ == old(audit).events@
                } else {
                    let task_id = old(queue).tasks@.len() + 1;
                    &&& r == (IngestOutcome::Inserted { task_id: task_id as i64 })
                    &&& final(queue).tasks@.len() == old(queue).tasks@.len() + 1
                    &&& final(queue).tasks@.take(old(queue).tasks@.len() as int) == old(
                        queue,
                    ).tasks@
                    &&& {
                        let added = final(queue).tasks@.last();
                        &&& added.update_id == update.update_id
                        &&& added.chat_id == update.message->0.chat_id
                        &&& added.text@ == text
                        &&& added.message_date == update.message->0.date
                        &&& added.status == TaskStatus::Queued
                        &&& added.attempts == 0
                    }
                    &&& final(audit).events@.len() == old(audit).events@.len() + 2
                    &&& final(audit).events@.take(old(audit).events@.len() as int) == old(
                        audit,
                    ).events@
                    &&& spec_logged_event(
                        final(audit).events@[old(audit).events@.len() as int],
                        task_id as i64,
                        update.message->0.chat_id,
                        Some(update.update_id),
                        AuditPhase::Ingress,
                        AuditStatus::Info,
                        Some(text),
                        None,
                        *ctx,
                        now,
                    )
                    &&& spec_logged_event(
                        final(audit).events@.last(),
                        task_id as i64,
                        update.message->0.chat_id,
                        Some(update.update_id),
                        AuditPhase::Queued,
                        AuditStatus::Okay,
                        None,
                        None,
                        *ctx,
                        now,
                    )
                }
            },
        },
{
    let message = match &update.message {
        None => {
            return IngestOutcome::Skipped;
        },
        Some(m) => m,
    };
    let text = match &message.text {
        None => {
            return IngestOutcome::Skipped;
        },
        Some(t) => t,
    };
    let trimmed = trim_str(text.as_str());
    if trimmed.as_str().unicode_len() == 0 {
        return IngestOutcome::Skipped;
    }
    let inserted = queue.enqueue(update.update_id, message.chat_id, text.clone(), message.date);
    if !inserted {
        return IngestOutcome::Duplicate;
    }
    let ghost fresh_id = old(queue).tasks@.len() + 1;
    let task_id = match queue.get_task_id_by_update_id(update.update_id) {
        Some(id) => id,
        None => {
            proof {
                assert(queue.tasks@.last().update_id == update.update_id);
                assert(spec_has_update(queue.tasks@, update.update_id));
                assert(false);
            }
            0
        },
    };
    proof {
        let w = choose|w: int|
            0 <= w < queue.tasks@.len() && (#[trigger] queue.tasks@[w]).update_id
                == update.update_id && queue.tasks@[w].id == task_id;
        if w != queue.tasks@.len() - 1 {
            assert(old(queue).tasks@[w] == queue.tasks@[w]);
            assert(spec_has_update(old(queue).tasks@, update.update_id));
            assert(false);
        }
        assert(task_id == fresh_id);
    }
    audit.log_task_event(
        task_id,
        message.chat_id,
        Some(update.update_id),
        AuditPhase::Ingress,
        AuditStatus::Info,
        Some(text.as_str()),
        None,
        ctx,
        now,
    );
    audit.log_task_event(
        task_id,
        message.chat_id,
        Some(update.update_id),
        AuditPhase::Queued,
        AuditStatus::Okay,
        None,
        None,
        ctx,
        now,
    );
    proof {
        assert(final(audit).events@.take(old(audit).events@.len() as int) =~= old(
            audit,
        ).events@);
        assert(final(queue).tasks@.take(old(queue).tasks@.len() as int) =~= old(queue).tasks@);
    }
    IngestOutcome::Inserted { task_id }
}

/// How processing one claimed task ended, as the surrounding run of the
/// completion and delivery calls reports it.
pub enum TaskOutcome {
    Success,
    Failure { error: String },
}

/// The best-effort notification sent to the conversation when its task
/// failed.
pub open spec fn spec_failure_notification(error: Seq<char>) -> Seq<char> {
    "任务处理失败："@ + error.take(spec_min_usize(600, error.len() as int))
}

/// Record a processed task's terminal state: on success the row becomes
/// `Done` and a `task_done` event is written; on failure the row becomes
/// `Failed` with the truncated error kept, a `task_failed` event is
/// written, and a notification text for the conversation is produced.
pub fn finish_task(
    queue: &mut InboxQueue,
    audit: &mut AuditLog,
    ctx: &RunContext,
    task: &QueueTask,
    outcome: &TaskOutcome,
    now: i64,
) -> (notify: Option<String>)
    requires
        old(queue).wf(),
    ensures
        final(queue).wf(),
        final(queue).tasks@.len() == old(queue).tasks@.len(),
        forall|j: int|
            0 <= j < old(queue).tasks@.len() && j != task.id - 1 ==> final(queue).tasks@[j] == old(
                queue,
            ).tasks@[j],
        final(audit).events@.len() == old(audit).events@.len() + 1,
        final(audit).events@.drop_last() == old(audit).events@,
        match *outcome {
            TaskOutcome::Success => {
                &&& 1 <= task.id <= old(queue).tasks@.len() ==> final(queue).tasks@[task.id - 1]
                    == (Task {
                    status: TaskStatus::Done,
                    error: None,
                    ..old(queue).tasks@[task.id - 1]
                })
                &&& spec_logged_event(
                    final(audit).events@.last(),
                    task.id,
                    task.chat_id,
                    Some(task.update_id),
                    AuditPhase::TaskDone,
                    AuditStatus::Okay,
                    None,
                    None,
                    *ctx,
                    now,
                )
                &&& notify is None
            },
            TaskOutcome::Failure { ref error } => {
                &&& 1 <= task.id <= old(queue).tasks@.len() ==> spec_failed_row(
                    old(queue).tasks@[task.id - 1],
                    final(queue).tasks@[task.id - 1],
                    error@,
                )
                &&& spec_logged_event(
                    final(audit).events@.last(),
                    task.id,
                    task.chat_id,
                    Some(task.update_id),
                    AuditPhase::TaskFailed,
                    AuditStatus::Failed,
                    None,
                    Some(error@),
                    *ctx,
                    now,
                )
                &&& match notify {
                    Some(n) => n@ == spec_failure_notification(error@),
                    None => false,
                }
            },
        },
{
    match outcome {
        TaskOutcome::Success => {
            queue.mark_task_done(task.id);
            audit.log_task_event(
                task.id,
                task.chat_id,
                Some(task.update_id),
                AuditPhase::TaskDone,
                AuditStatus::Okay,
                None,
                None,
                ctx,
                now,
            );
            None
        },
        TaskOutcome::Failure { error } => {
            queue.mark_task_failed(task.id, error.as_str());
            audit.log_task_event(
                task.id,
                task.chat_id,
                Some(task.update_id),
                AuditPhase::TaskFailed,
                AuditStatus::Failed,
                None,
                Some(error.as_str()),
                ctx,
                now,
            );
            let mut notify = String::from_str("任务处理失败：");
            let bounded = truncate_for_telegram(error.as_str(), 600);
            notify.append(bounded.as_str());
            proof {
                assert(notify@ =~= spec_failure_notification(error@));
            }
            Some(notify)
        },
    }
}

/// The reply taken from a completion response: the first choice's text,
/// trimmed, or the placeholder when the response carried nothing usable.
pub fn extract_reply(first_choice_content: Option<&String>) -> (r: String)
    ensures
        match first_choice_content {
            Some(t) => if spec_trim(t@).len() > 0 {
                r@ == spec_trim(t@)
            } else {
                r@ == "(empty model response)"@
            },
            None => r@ == "(empty model response)"@,
        },
{
    match first_choice_content {
        Some(t) => {
            let trimmed = trim_str(t.as_str());
            if trimmed.as_str().unicode_len() == 0 {
                String::from_str("(empty model response)")
            } else {
                trimmed
            }
        },
        None => String::from_str("(empty model response)"),
    }
}

/// The error recorded when the completion service answers with a
/// non-success status: the status and the leading part of the body.
pub open spec fn spec_completion_error_text(status_text: Seq<char>, body: Seq<char>) -> Seq<char> {
    "openai non-success status="@ + status_text + " body="@ + body.take(
        spec_min_usize(400, body.len() as int),
    )
}

pub fn completion_error_text(status_text: &str, body: &str) -> (r: String)
    ensures
        r@ == spec_completion_error_text(status_text@, body@),
{
    let mut s = String::from_str("openai non-success status=");
    s.append(status_text);
    s.append(" body=");
    let bounded = truncate_for_telegram(body, 400);
    s.append(bounded.as_str());
    proof {
        assert(s@ =~= spec_completion_error_text(status_text@, body@));
    }
    s
}

} // verus!

