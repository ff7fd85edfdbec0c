use autonous::audit::{AuditLog, AuditPhase, AuditStatus, RunContext};
use autonous::queue::{InboxQueue, QueueTask, TaskStatus};
use autonous::text::current_unix_timestamp;
use autonous::worker::{
    accept_updates, choose_poll_timeout, completion_error_text, extract_reply, finish_task,
    ingest_update, parse_stored_offset, resolve_bootstrap_offset, should_self_terminate,
    FetchedMessage, FetchedUpdate, IngestOutcome, TaskOutcome, WORKER_SELF_EXIT_CODE,
};

fn update(update_id: i64, chat_id: i64, text: Option<&str>, date: i64) -> FetchedUpdate {
    FetchedUpdate {
        update_id,
        message: Some(FetchedMessage {
            chat_id,
            text: text.map(|t| t.to_string()),
            date,
        }),
    }
}

fn ctx() -> RunContext {
    RunContext {
        run_id: "R100-1-W000001".to_string(),
        worker_instance_id: "W000001".to_string(),
    }
}

#[test]
fn bootstrap_resumes_from_earliest_recent_item() {
    // Five backlog items; with `now` at 1000 and a 600-second window only
    // the last two are recent.
    let updates = vec![
        update(101, 1, Some("a"), 100),
        update(102, 1, Some("b"), 150),
        update(103, 1, Some("c"), 200),
        update(104, 1, Some("d"), 500),
        update(105, 1, Some("e"), 900),
    ];
    let offset = resolve_bootstrap_offset(&updates, 1000, 600, 10);
    assert_eq!(offset, 104, "the earlier of the two in-window items is replayed");
}

#[test]
fn bootstrap_skips_everything_when_nothing_is_recent() {
    let updates = vec![update(101, 1, Some("a"), 100), update(102, 1, Some("b"), 110)];
    assert_eq!(resolve_bootstrap_offset(&updates, 10_000, 600, 10), 103);
}

#[test]
fn bootstrap_with_empty_fetch_starts_at_zero() {
    assert_eq!(resolve_bootstrap_offset(&Vec::new(), 1000, 600, 10), 0);
}

#[test]
fn bootstrap_caps_the_replayed_backlog() {
    let updates = vec![
        update(101, 1, Some("a"), 900),
        update(102, 1, Some("b"), 910),
        update(103, 1, Some("c"), 920),
        update(104, 1, Some("d"), 930),
    ];
    assert_eq!(
        resolve_bootstrap_offset(&updates, 1000, 600, 2),
        103,
        "older in-window items beyond the cap are discarded"
    );
}

#[test]
fn bootstrap_ignores_items_without_message() {
    let updates = vec![
        FetchedUpdate { update_id: 50, message: None },
        update(51, 1, Some("x"), 990),
    ];
    assert_eq!(resolve_bootstrap_offset(&updates, 1000, 600, 10), 51);
}

#[test]
fn poll_timeout_is_zero_while_backlog_exists() {
    assert_eq!(choose_poll_timeout(true, 30), 0);
    assert_eq!(choose_poll_timeout(false, 30), 30);
}

#[test]
fn self_termination_fires_every_third_attempt() {
    let mut exits = Vec::new();
    for handled in 1..=9u64 {
        if should_self_terminate(handled, 3) {
            exits.push(handled);
        }
    }
    assert_eq!(exits, vec![3, 6, 9]);
    assert!(!should_self_terminate(1, 0), "an unset interval never terminates");
    assert!(!should_self_terminate(0, 0));
    assert_eq!(WORKER_SELF_EXIT_CODE, 17);
}

#[test]
fn ingest_creates_row_and_first_audit_events() {
    let mut queue = InboxQueue::new();
    let mut audit = AuditLog::new();
    let run = ctx();
    let outcome = ingest_update(&mut queue, &mut audit, &run, &update(70, 9, Some("hello"), 42), 1000);
    assert_eq!(outcome, IngestOutcome::Inserted { task_id: 1 });
    assert_eq!(queue.tasks.len(), 1);
    assert_eq!(queue.tasks[0].text, "hello");
    assert_eq!(queue.tasks[0].chat_id, 9);
    assert_eq!(queue.tasks[0].message_date, 42);
    assert_eq!(queue.tasks[0].status, TaskStatus::Queued);

    assert_eq!(audit.events.len(), 2);
    assert_eq!(audit.events[0].phase, AuditPhase::Ingress);
    assert_eq!(audit.events[0].status, AuditStatus::Info);
    assert_eq!(audit.events[0].message.as_deref(), Some("hello"));
    assert_eq!(audit.events[0].task_id, 1);
    assert_eq!(audit.events[0].update_id, Some(70));
    assert_eq!(audit.events[0].run_id, "R100-1-W000001");
    assert_eq!(audit.events[0].worker_instance_id, "W000001");
    assert_eq!(audit.events[1].phase, AuditPhase::Queued);
    assert_eq!(audit.events[1].status, AuditStatus::Okay);
    assert_eq!(audit.events[1].message, None);
}

#[test]
fn ingest_is_silent_on_duplicates_and_unusable_updates() {
    let mut queue = InboxQueue::new();
    let mut audit = AuditLog::new();
    let run = ctx();
    assert_eq!(
        ingest_update(&mut queue, &mut audit, &run, &update(70, 9, Some("hello"), 42), 1000),
        IngestOutcome::Inserted { task_id: 1 }
    );
    assert_eq!(
        ingest_update(&mut queue, &mut audit, &run, &update(70, 9, Some("hello"), 42), 1001),
        IngestOutcome::Duplicate
    );
    assert_eq!(
        ingest_update(&mut queue, &mut audit, &run, &update(71, 9, None, 42), 1002),
        IngestOutcome::Skipped
    );
    assert_eq!(
        ingest_update(&mut queue, &mut audit, &run, &update(72, 9, Some(" \n\t "), 42), 1003),
        IngestOutcome::Skipped
    );
    assert_eq!(
        ingest_update(
            &mut queue,
            &mut audit,
            &run,
            &FetchedUpdate { update_id: 73, message: None },
            1004
        ),
        IngestOutcome::Skipped
    );
    assert_eq!(queue.tasks.len(), 1);
    assert_eq!(audit.events.len(), 2, "nothing skipped or duplicate is audited");
}

#[test]
fn finishing_a_task_records_done() {
    let mut queue = InboxQueue::new();
    let mut audit = AuditLog::new();
    let run = ctx();
    assert!(queue.enqueue(70, 9, "hello".to_string(), 42));
    let picked = queue.claim_next(1000).unwrap();
    let notify = finish_task(&mut queue, &mut audit, &run, &picked, &TaskOutcome::Success, 1001);
    assert!(notify.is_none());
    assert_eq!(queue.tasks[0].status, TaskStatus::Done);
    assert_eq!(audit.events.len(), 1);
    assert_eq!(audit.events[0].phase, AuditPhase::TaskDone);
    assert_eq!(audit.events[0].status, AuditStatus::Okay);
}

#[test]
fn failing_a_task_records_failure_and_notifies() {
    let mut queue = InboxQueue::new();
    let mut audit = AuditLog::new();
    let run = ctx();
    assert!(queue.enqueue(70, 9, "hello".to_string(), 42));
    let picked = queue.claim_next(1000).unwrap();
    let outcome = TaskOutcome::Failure { error: "completion timed out".to_string() };
    let notify = finish_task(&mut queue, &mut audit, &run, &picked, &outcome, 1001);
    assert_eq!(notify.as_deref(), Some("任务处理失败：completion timed out"));
    assert_eq!(queue.tasks[0].status, TaskStatus::Failed);
    assert_eq!(queue.tasks[0].error.as_deref(), Some("completion timed out"));
    assert_eq!(audit.events[0].phase, AuditPhase::TaskFailed);
    assert_eq!(audit.events[0].status, AuditStatus::Failed);
    assert_eq!(audit.events[0].error.as_deref(), Some("completion timed out"));

    assert!(queue.has_runnable_tasks(), "the failed row stays eligible");
}

#[test]
fn failure_notification_is_bounded() {
    let mut queue = InboxQueue::new();
    let mut audit = AuditLog::new();
    let run = ctx();
    assert!(queue.enqueue(70, 9, "hello".to_string(), 42));
    let picked = queue.claim_next(1000).unwrap();
    let outcome = TaskOutcome::Failure { error: "x".repeat(700) };
    let notify = finish_task(&mut queue, &mut audit, &run, &picked, &outcome, 1001).unwrap();
    let expected: String = format!("任务处理失败：{}", "x".repeat(600));
    assert_eq!(notify, expected);
}

#[test]
fn finish_task_on_unknown_row_still_audits() {
    let mut queue = InboxQueue::new();
    let mut audit = AuditLog::new();
    let run = ctx();
    let ghost_task = QueueTask { id: 5, chat_id: 1, update_id: 2, text: "t".to_string() };
    let notify = finish_task(&mut queue, &mut audit, &run, &ghost_task, &TaskOutcome::Success, 1);
    assert!(notify.is_none());
    assert_eq!(queue.tasks.len(), 0);
    assert_eq!(audit.events.len(), 1);
}

#[test]
fn reply_extraction_trims_and_falls_back() {
    assert_eq!(extract_reply(Some(&"  a reply \n".to_string())), "a reply");
    assert_eq!(extract_reply(Some(&"   \n ".to_string())), "(empty model response)");
    assert_eq!(extract_reply(None), "(empty model response)");
}

#[test]
fn completion_error_text_is_exact_and_bounded() {
    assert_eq!(
        completion_error_text("429 Too Many Requests", "slow down"),
        "openai non-success status=429 Too Many Requests body=slow down"
    );
    let long_body = "b".repeat(450);
    let text = completion_error_text("500", &long_body);
    assert_eq!(
        text,
        format!("openai non-success status=500 body={}", "b".repeat(400))
    );
}

#[test]
fn stored_offset_parses_only_clean_decimals() {
    assert_eq!(parse_stored_offset(&Some("42".to_string())), Some(42));
    assert_eq!(parse_stored_offset(&Some("-3".to_string())), Some(-3));
    assert_eq!(parse_stored_offset(&Some("4x".to_string())), None);
    assert_eq!(parse_stored_offset(&None), None);
}

#[test]
fn fetch_acceptance_follows_source_flag() {
    let items = vec![update(1, 1, Some("x"), 5)];
    assert_eq!(accept_updates(true, items).len(), 1);
    let items = vec![update(1, 1, Some("x"), 5)];
    assert_eq!(accept_updates(false, items).len(), 0);
}

#[test]
fn clock_reads_are_never_negative() {
    assert!(current_unix_timestamp() >= 0);
}
