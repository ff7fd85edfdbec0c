use autonous::queue::{InboxQueue, Task, TaskStatus};

fn queue_with(texts: &[(i64, &str)]) -> InboxQueue {
    let mut q = InboxQueue::new();
    for (uid, text) in texts {
        assert!(q.enqueue(*uid, 7, text.to_string(), 1000));
    }
    q
}

#[test]
fn enqueue_creates_one_row_per_update_id() {
    let mut q = InboxQueue::new();
    assert!(q.enqueue(10, 1, "first".to_string(), 111));
    assert!(!q.enqueue(10, 1, "first again".to_string(), 112));
    assert!(!q.enqueue(10, 9, "other chat, same update".to_string(), 113));
    assert_eq!(q.tasks.len(), 1);
    assert_eq!(q.tasks[0].id, 1);
    assert_eq!(q.tasks[0].update_id, 10);
    assert_eq!(q.tasks[0].text, "first");
    assert_eq!(q.tasks[0].status, TaskStatus::Queued);
    assert_eq!(q.tasks[0].attempts, 0);
}

#[test]
fn claim_flips_exactly_one_row_to_in_progress() {
    let mut q = queue_with(&[(1, "a"), (2, "b")]);
    let picked = q.claim_next(500).expect("a row must be claimable");
    assert_eq!(picked.id, 1);
    assert_eq!(picked.text, "a");
    assert_eq!(q.tasks[0].status, TaskStatus::InProgress);
    assert_eq!(q.tasks[0].attempts, 1);
    assert_eq!(q.tasks[0].locked_at, Some(500));
    assert_eq!(q.tasks[1].status, TaskStatus::Queued);

    let second = q.claim_next(501).expect("the other row is still claimable");
    assert_ne!(second.id, picked.id);
    let third = q.claim_next(502);
    assert!(third.is_none(), "no row may be claimed twice");
}

#[test]
fn claim_drains_queued_before_failed_in_id_order() {
    let mut q = queue_with(&[(1, "a"), (2, "b"), (3, "c")]);
    let first = q.claim_next(10).unwrap();
    q.mark_task_failed(first.id, "boom");
    let second = q.claim_next(11).unwrap();
    assert_eq!(second.id, 2, "queued rows come before the failed row");
    let third = q.claim_next(12).unwrap();
    assert_eq!(third.id, 3);
    let retry = q.claim_next(13).unwrap();
    assert_eq!(retry.id, 1, "only then is the failed row retried");
}

#[test]
fn failed_task_is_retried_with_higher_attempts() {
    let mut q = queue_with(&[(5, "x")]);
    let first = q.claim_next(100).unwrap();
    assert_eq!(q.tasks[0].attempts, 1);
    q.mark_task_failed(first.id, "transient");
    assert_eq!(q.tasks[0].status, TaskStatus::Failed);
    assert_eq!(q.tasks[0].error.as_deref(), Some("transient"));

    let again = q.claim_next(200).unwrap();
    assert_eq!(again.id, first.id);
    assert_eq!(q.tasks[0].attempts, 2);
    assert_eq!(q.tasks[0].error, None, "a claim clears the prior error");
    assert_eq!(q.tasks[0].locked_at, Some(200));
}

#[test]
fn mark_done_clears_error_and_ends_eligibility() {
    let mut q = queue_with(&[(5, "x")]);
    let t = q.claim_next(1).unwrap();
    q.mark_task_done(t.id);
    assert_eq!(q.tasks[0].status, TaskStatus::Done);
    assert_eq!(q.tasks[0].error, None);
    assert!(!q.has_runnable_tasks());
    assert!(q.claim_next(2).is_none());
}

#[test]
fn mark_failed_truncates_error_to_bound() {
    let mut q = queue_with(&[(5, "x")]);
    let t = q.claim_next(1).unwrap();
    let long_error = "e".repeat(1500);
    q.mark_task_failed(t.id, &long_error);
    let stored = q.tasks[0].error.as_ref().unwrap();
    assert_eq!(stored.chars().count(), 1000);
    assert_eq!(stored.as_str(), "e".repeat(1000).as_str());
}

#[test]
fn mark_on_unknown_id_changes_nothing() {
    let mut q = queue_with(&[(5, "x")]);
    q.mark_task_done(99);
    q.mark_task_failed(0, "no row");
    assert_eq!(q.tasks[0].status, TaskStatus::Queued);
}

#[test]
fn task_id_lookup_follows_update_id() {
    let mut q = queue_with(&[(50, "a"), (60, "b")]);
    assert_eq!(q.get_task_id_by_update_id(60), Some(2));
    assert_eq!(q.get_task_id_by_update_id(61), None);
    assert!(q.has_runnable_tasks());
}

#[test]
fn restore_rejects_broken_rows() {
    let good = vec![
        Task {
            id: 1,
            update_id: 10,
            chat_id: 1,
            text: "a".to_string(),
            message_date: 0,
            status: TaskStatus::Done,
            attempts: 1,
            locked_at: Some(3),
            error: None,
        },
        Task {
            id: 2,
            update_id: 11,
            chat_id: 1,
            text: "b".to_string(),
            message_date: 0,
            status: TaskStatus::Failed,
            attempts: 2,
            locked_at: Some(4),
            error: Some("boom".to_string()),
        },
    ];
    let q = InboxQueue::from_rows(good).expect("valid rows restore");
    assert_eq!(q.tasks.len(), 2);

    let mut dup_update = vec![
        Task {
            id: 1,
            update_id: 10,
            chat_id: 1,
            text: "a".to_string(),
            message_date: 0,
            status: TaskStatus::Queued,
            attempts: 0,
            locked_at: None,
            error: None,
        },
        Task {
            id: 2,
            update_id: 10,
            chat_id: 1,
            text: "b".to_string(),
            message_date: 0,
            status: TaskStatus::Queued,
            attempts: 0,
            locked_at: None,
            error: None,
        },
    ];
    assert!(InboxQueue::from_rows(dup_update.clone()).is_none());
    dup_update[1].update_id = 11;
    dup_update[1].id = 3;
    assert!(InboxQueue::from_rows(dup_update).is_none(), "identifiers must be dense");
}
