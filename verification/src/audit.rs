//! The append-only audit trail: one write-once event per pipeline phase
//! of a task, with message and error text bounded, tagged with the worker
//! instance and run that emitted it. Used for post-hoc diagnosis only,
//! never for control flow.

use vstd::prelude::*;
use vstd::string::StringExecFns;

use crate::text::spec_min_usize;
use crate::text::truncate_for_telegram;

verus! {

/// The pipeline phase an audit event records.
#[derive(Clone, Copy, PartialEq, Eq, Structural, Debug)]
pub enum AuditPhase {
    Ingress,
    Queued,
    Claimed,
    ModelRequest,
    ModelResponse,
    ReplySent,
    TaskDone,
    TaskFailed,
}

impl AuditPhase {
    /// The phase tag as the audit table stores it.
    pub fn tag_text(&self) -> (r: String)
        ensures
            r@ == spec_phase_tag(*self),
    {
        match self {
            AuditPhase::Ingress => String::from_str("ingress"),
            AuditPhase::Queued => String::from_str("queued"),
            AuditPhase::Claimed => String::from_str("claimed"),
            AuditPhase::ModelRequest => String::from_str("model_request"),
            AuditPhase::ModelResponse => String::from_str("model_response"),
            AuditPhase::ReplySent => String::from_str("reply_sent"),
            AuditPhase::TaskDone => String::from_str("task_done"),
            AuditPhase::TaskFailed => String::from_str("task_failed"),
        }
    }
}

pub open spec fn spec_phase_tag(p: AuditPhase) -> Seq<char> {
    match p {
        AuditPhase::Ingress => "ingress"@,
        AuditPhase::Queued => "queued"@,
        AuditPhase::Claimed => "claimed"@,
        AuditPhase::ModelRequest => "model_request"@,
        AuditPhase::ModelResponse => "model_response"@,
        AuditPhase::ReplySent => "reply_sent"@,
        AuditPhase::TaskDone => "task_done"@,
        AuditPhase::TaskFailed => "task_failed"@,
    }
}

/// The outcome tag of an audit event.
#[derive(Clone, Copy, PartialEq, Eq, Structural, Debug)]
pub enum AuditStatus {
    Info,
    Okay,
    Failed,
}

impl AuditStatus {
    /// The status tag as the audit table stores it.
    pub fn tag_text(&self) -> (r: String)
        ensures
            r@ == spec_status_tag(*self),
    {
        match self {
            AuditStatus::Info => String::from_str("info"),
            AuditStatus::Okay => String::from_str("ok"),
            AuditStatus::Failed => String::from_str("failed"),
        }
    }
}

pub open spec fn spec_status_tag(s: AuditStatus) -> Seq<char> {
    match s {
        AuditStatus::Info => "info"@,
        AuditStatus::Okay => "ok"@,
        AuditStatus::Failed => "failed"@,
    }
}

/// The identifiers of the worker process run that emits audit events.
pub struct RunContext {
    pub run_id: String,
    pub worker_instance_id: String,
}

/// One write-once audit record.
pub struct AuditEvent {
    pub task_id: i64,
    pub chat_id: i64,
    pub update_id: Option<i64>,
    pub phase: AuditPhase,
    pub status: AuditStatus,
    pub message: Option<String>,
    pub error: Option<String>,
    pub run_id: String,
    pub worker_instance_id: String,
    pub created_at: i64,
}

/// The bound on stored message and error text.
pub const AUDIT_TEXT_LIMIT: usize = 1000;

/// What the appended event must look like, given the call's arguments:
/// the optional texts truncated to the bound, the run identifiers copied.
pub open spec fn spec_logged_event(
    e: AuditEvent,
    task_id: i64,
    chat_id: i64,
    update_id: Option<i64>,
    phase: AuditPhase,
    status: AuditStatus,
    message: Option<Seq<char>>,
    error: Option<Seq<char>>,
    ctx: RunContext,
    now: i64,
) -> bool {
    &&& e.task_id == task_id
    &&& e.chat_id == chat_id
    &&& e.update_id == update_id
    &&& e.phase == phase
    &&& e.status == status
    &&& match (message, e.message) {
        (Some(m), Some(t)) => t@ == m.take(spec_min_usize(AUDIT_TEXT_LIMIT as int, m.len() as int)),
        (None, None) => true,
        _ => false,
    }
    &&& match (error, e.error) {
        (Some(m), Some(t)) => t@ == m.take(spec_min_usize(AUDIT_TEXT_LIMIT as int, m.len() as int)),
        (None, None) => true,
        _ => false,
    }
    &&& e.run_id@ == ctx.run_id@
    &&& e.worker_instance_id@ == ctx.worker_instance_id@
    &&& e.created_at == now
}

/// The append-only audit log.
pub struct AuditLog {
    pub events: Vec<AuditEvent>,
}

impl AuditLog {
    pub fn new() -> (log: AuditLog)
        ensures
            log.events@.len() == 0,
    {
        AuditLog { events: Vec::new() }
    }

    /// Append one event; nothing already logged is touched.
    pub fn log_task_event(
        &mut self,
        task_id: i64,
        chat_id: i64,
        update_id: Option<i64>,
        phase: AuditPhase,
        status: AuditStatus,
        message: Option<&str>,
        error: Option<&str>,
        ctx: &RunContext,
        now: i64,
    )
        ensures
            final(self).events@.len() == old(self).events@.len() + 1,
            final(self).events@.drop_last() == old(self).events@,
            spec_logged_event(
                final(self).events@.last(),
                task_id,
                chat_id,
                update_id,
                phase,
                status,
                match message {
                    Some(m) => Some(m@),
                    None => None,
                },
                match error {
                    Some(m) => Some(m@),
                    None => None,
                },
                *ctx,
                now,
            ),
    {
        let msg = match message {
            Some(m) => Some(truncate_for_telegram(m, AUDIT_TEXT_LIMIT)),
            None => None,
        };
        let err = match error {
            Some(m) => Some(truncate_for_telegram(m, AUDIT_TEXT_LIMIT)),
            None => None,
        };
        let event = AuditEvent {
            task_id,
            chat_id,
            update_id,
            phase,
            status,
            message: msg,
            error: err,
            run_id: ctx.run_id.clone(),
            worker_instance_id: ctx.worker_instance_id.clone(),
            created_at: now,
        };
        self.events.push(event);
        proof {
            assert(self.events@.drop_last() =~= old(self).events@);
        }
    }
}

} // verus!
