use autonous::audit::{AuditLog, AuditPhase, AuditStatus, RunContext};

fn ctx() -> RunContext {
    RunContext {
        run_id: "R7-8-W000003".to_string(),
        worker_instance_id: "W000003".to_string(),
    }
}

#[test]
fn events_are_appended_never_rewritten() {
    let mut log = AuditLog::new();
    let run = ctx();
    log.log_task_event(
        1,
        5,
        Some(99),
        AuditPhase::Ingress,
        AuditStatus::Info,
        Some("payload"),
        None,
        &run,
        100,
    );
    log.log_task_event(
        1,
        5,
        Some(99),
        AuditPhase::TaskFailed,
        AuditStatus::Failed,
        None,
        Some("the reason"),
        &run,
        101,
    );
    assert_eq!(log.events.len(), 2);
    assert_eq!(log.events[0].phase, AuditPhase::Ingress);
    assert_eq!(log.events[0].message.as_deref(), Some("payload"));
    assert_eq!(log.events[0].error, None);
    assert_eq!(log.events[0].created_at, 100);
    assert_eq!(log.events[1].error.as_deref(), Some("the reason"));
    assert_eq!(log.events[1].run_id, "R7-8-W000003");
    assert_eq!(log.events[1].worker_instance_id, "W000003");
}

#[test]
fn long_texts_are_bounded_in_the_log() {
    let mut log = AuditLog::new();
    let run = ctx();
    let long = "m".repeat(1200);
    log.log_task_event(
        2,
        5,
        None,
        AuditPhase::ModelResponse,
        AuditStatus::Okay,
        Some(&long),
        Some(&long),
        &run,
        7,
    );
    let event = &log.events[0];
    assert_eq!(event.message.as_ref().unwrap().chars().count(), 1000);
    assert_eq!(event.error.as_ref().unwrap().chars().count(), 1000);
    assert_eq!(event.update_id, None);
}

#[test]
fn tags_match_the_stored_vocabulary() {
    assert_eq!(AuditPhase::Ingress.tag_text(), "ingress");
    assert_eq!(AuditPhase::Queued.tag_text(), "queued");
    assert_eq!(AuditPhase::Claimed.tag_text(), "claimed");
    assert_eq!(AuditPhase::ModelRequest.tag_text(), "model_request");
    assert_eq!(AuditPhase::ModelResponse.tag_text(), "model_response");
    assert_eq!(AuditPhase::ReplySent.tag_text(), "reply_sent");
    assert_eq!(AuditPhase::TaskDone.tag_text(), "task_done");
    assert_eq!(AuditPhase::TaskFailed.tag_text(), "task_failed");
    assert_eq!(AuditStatus::Info.tag_text(), "info");
    assert_eq!(AuditStatus::Okay.tag_text(), "ok");
    assert_eq!(AuditStatus::Failed.tag_text(), "failed");
}
