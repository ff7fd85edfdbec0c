//! The worker's durable task queue, modelled as plain data with explicit
//! invariants: one row per distinct inbound update, deduplicated ingestion,
//! a single-claim transition that hands each row to exactly one claimer,
//! and terminal transitions that keep failed rows eligible for retry.
//!
//! The surrounding process mirrors every mutation of this model to the
//! on-disk store; `from_rows` rebuilds and re-validates the model from the
//! stored rows after a restart.

use vstd::prelude::*;

use crate::text::spec_min_usize;
use crate::text::truncate_for_telegram;

verus! {

/// Lifecycle of one queued task: created `Queued`, claimed to
/// `InProgress`, then `Done` or `Failed`; a failed task stays eligible for
/// another claim.
#[derive(Clone, Copy, PartialEq, Eq, Structural, Debug)]
pub enum TaskStatus {
    Queued,
    InProgress,
    Done,
    Failed,
}

/// One row of the inbox queue.
#[derive(Clone, Debug)]
pub struct Task {
    pub id: i64,
    pub update_id: i64,
    pub chat_id: i64,
    pub text: String,
    pub message_date: i64,
    pub status: TaskStatus,
    pub attempts: u64,
    pub locked_at: Option<i64>,
    pub error: Option<String>,
}

/// The fields of a claimed task that its processing needs.
#[derive(Clone, Debug)]
pub struct QueueTask {
    pub id: i64,
    pub chat_id: i64,
    pub update_id: i64,
    pub text: String,
}

/// Row identifiers are dense and in insertion order, and no two rows share
/// an inbound update identifier.
pub open spec fn wf_tasks(s: Seq<Task>) -> bool {
    &&& s.len() <= 0x7fff_ffff_ffff_ffff
    &&& forall|i: int| 0 <= i < s.len() ==> (#[trigger] s[i]).id == i + 1
    &&& forall|i: int, j: int|
        0 <= i < j < s.len() ==> #[trigger] s[i].update_id != #[trigger] s[j].update_id
}

pub open spec fn spec_has_update(s: Seq<Task>, update_id: i64) -> bool {
    exists|i: int| 0 <= i < s.len() && (#[trigger] s[i]).update_id == update_id
}

/// A task that a claim may select.
pub open spec fn spec_eligible(t: Task) -> bool {
    t.status == TaskStatus::Queued || t.status == TaskStatus::Failed
}

/// The row a claim selects: the first `Queued` row, and only when no row
/// is `Queued`, the first `Failed` row.
pub open spec fn spec_is_first_with(s: Seq<Task>, st: TaskStatus, i: int) -> bool {
    &&& 0 <= i < s.len()
    &&& s[i].status == st
    &&& forall|j: int| 0 <= j < i ==> (#[trigger] s[j]).status != st
}

pub open spec fn spec_is_claim_choice(s: Seq<Task>, i: int) -> bool {
    ||| spec_is_first_with(s, TaskStatus::Queued, i)
    ||| {
        &&& !(exists|j: int| 0 <= j < s.len() && (#[trigger] s[j]).status == TaskStatus::Queued)
        &&& spec_is_first_with(s, TaskStatus::Failed, i)
    }
}

/// A freshly ingested row.
pub open spec fn spec_new_task(
    id: i64,
    update_id: i64,
    chat_id: i64,
    text: String,
    message_date: i64,
) -> Task {
    Task {
        id,
        update_id,
        chat_id,
        text,
        message_date,
        status: TaskStatus::Queued,
        attempts: 0,
        locked_at: None,
        error: None,
    }
}

/// The claimed version of a row: in progress, one more attempt, lock
/// stamped, prior error cleared.
pub open spec fn spec_claimed(t: Task, now: i64) -> Task {
    Task {
        id: t.id,
        update_id: t.update_id,
        chat_id: t.chat_id,
        text: t.text,
        message_date: t.message_date,
        status: TaskStatus::InProgress,
        attempts: (t.attempts + 1) as u64,
        locked_at: Some(now),
        error: None,
    }
}

/// Whether any row is eligible for a claim.
pub open spec fn spec_has_claim_choice(s: Seq<Task>) -> bool {
    exists|i: int| spec_is_claim_choice(s, i)
}

/// The row a claim selects; meaningful only when a choice exists, and
/// then unique by `lemma_claim_choice_unique`.
pub open spec fn spec_claim_index(s: Seq<Task>) -> int {
    choose|i: int| spec_is_claim_choice(s, i)
}

/// The claim order selects at most one row.
pub proof fn lemma_claim_choice_unique(s: Seq<Task>, i: int, j: int)
    requires
        spec_is_claim_choice(s, i),
        spec_is_claim_choice(s, j),
    ensures
        i == j,
{
    if spec_is_first_with(s, TaskStatus::Queued, i) {
        assert(spec_is_first_with(s, TaskStatus::Queued, j));
        if i < j {
            assert(s[i].status != TaskStatus::Queued);
        }
        if j < i {
            assert(s[j].status != TaskStatus::Queued);
        }
    } else {
        assert(spec_is_first_with(s, TaskStatus::Failed, i));
        assert(spec_is_first_with(s, TaskStatus::Failed, j));
        if i < j {
            assert(s[i].status != TaskStatus::Failed);
        }
        if j < i {
            assert(s[j].status != TaskStatus::Failed);
        }
    }
}

/// How a failed terminal transition rewrites a row: only the status and
/// the stored error change, and the error is the given text truncated to
/// the audit bound.
pub open spec fn spec_failed_row(t: Task, u: Task, error: Seq<char>) -> bool {
    &&& u.id == t.id
    &&& u.update_id == t.update_id
    &&& u.chat_id == t.chat_id
    &&& u.text == t.text
    &&& u.message_date == t.message_date
    &&& u.status == TaskStatus::Failed
    &&& u.attempts == t.attempts
    &&& u.locked_at == t.locked_at
    &&& match u.error {
        Some(e) => e@ == error.take(spec_min_usize(1000, error.len() as int)),
        None => false,
    }
}

pub struct InboxQueue {
    pub tasks: Vec<Task>,
}

impl InboxQueue {
    pub open spec fn wf(&self) -> bool {
        wf_tasks(self.tasks@)
    }

    pub fn new() -> (q: InboxQueue)
        ensures
            q.wf(),
            q.tasks@.len() == 0,
    {
        InboxQueue { tasks: Vec::new() }
    }

    /// Deduplicated ingestion: re-ingesting an update identifier that is
    /// already present changes nothing and reports no insertion.
    pub fn enqueue(
        &mut self,
        update_id: i64,
        chat_id: i64,
        text: String,
        message_date: i64,
    ) -> (inserted: bool)
        requires
            old(self).wf(),
            old(self).tasks@.len() < 0x7fff_ffff_ffff_ffff,
        ensures
            final(self).wf(),
            inserted == !spec_has_update(old(self).tasks@, update_id),
            inserted ==> final(self).tasks@ == old(self).tasks@.push(
                spec_new_task(
                    (old(self).tasks@.len() + 1) as i64,
                    update_id,
                    chat_id,
                    text,
                    message_date,
                ),
            ),
            !inserted ==> final(self).tasks@ == old(self).tasks@,
    {
        let n = self.tasks.len();
        let mut i: usize = 0;
        while i < n
            invariant
                self.tasks@ == old(self).tasks@,
                old(self).wf(),
                n == self.tasks@.len(),
                i <= n,
                forall|j: int| 0 <= j < i ==> (#[trigger] self.tasks@[j]).update_id != update_id,
            decreases n - i,
        {
            if self.tasks[i].update_id == update_id {
                return false;
            }
            i += 1;
        }
        let id = (self.tasks.len() as i64) + 1;
        self.tasks.push(
            Task {
                id,
                update_id,
                chat_id,
                text,
                message_date,
                status: TaskStatus::Queued,
                attempts: 0,
                locked_at: None,
                error: None,
            },
        );
        true
    }

    /// The row identifier recorded for an update, if the update was ever
    /// ingested.
    pub fn get_task_id_by_update_id(&self, update_id: i64) -> (r: Option<i64>)
        requires
            self.wf(),
        ensures
            match r {
                Some(id) => exists|i: int|
                    0 <= i < self.tasks@.len() && (#[trigger] self.tasks@[i]).update_id == update_id
                        && self.tasks@[i].id == id,
                None => !spec_has_update(self.tasks@, update_id),
            },
    {
        let n = self.tasks.len();
        let mut i: usize = 0;
        while i < n
            invariant
                n == self.tasks@.len(),
                i <= n,
                forall|j: int| 0 <= j < i ==> (#[trigger] self.tasks@[j]).update_id != update_id,
            decreases n - i,
        {
            if self.tasks[i].update_id == update_id {
                return Some(self.tasks[i].id);
            }
            i += 1;
        }
        None
    }

    /// Whether any row is runnable, that is `Queued` or `Failed`.
    pub fn has_runnable_tasks(&self) -> (r: bool)
        ensures
            r == exists|i: int|
                0 <= i < self.tasks@.len() && spec_eligible(#[trigger] self.tasks@[i]),
    {
        let n = self.tasks.len();
        let mut i: usize = 0;
        while i < n
            invariant
                n == self.tasks@.len(),
                i <= n,
                forall|j: int| 0 <= j < i ==> !spec_eligible(#[trigger] self.tasks@[j]),
            decreases n - i,
        {
            let st = self.tasks[i].status;
            if st == TaskStatus::Queued || st == TaskStatus::Failed {
                return true;
            }
            i += 1;
        }
        false
    }

    fn find_first_with(&self, st: TaskStatus) -> (r: Option<usize>)
        ensures
            match r {
                Some(i) => spec_is_first_with(self.tasks@, st, i as int),
                None => forall|j: int|
                    0 <= j < self.tasks@.len() ==> (#[trigger] self.tasks@[j]).status != st,
            },
    {
        let n = self.tasks.len();
        let mut i: usize = 0;
        while i < n
            invariant
                n == self.tasks@.len(),
                i <= n,
                forall|j: int| 0 <= j < i ==> (#[trigger] self.tasks@[j]).status != st,
            decreases n - i,
        {
            if self.tasks[i].status == st {
                return Some(i);
            }
            i += 1;
        }
        None
    }

    /// The single-claim transition: under the store's exclusive
    /// transaction, select the first `Queued` row, else the first `Failed`
    /// row, and atomically flip it to `InProgress` with one more attempt,
    /// a fresh lock stamp and the prior error cleared.
    pub fn claim_next(&mut self, now: i64) -> (r: Option<QueueTask>)
        requires
            old(self).wf(),
            forall|i: int|
                0 <= i < old(self).tasks@.len() ==> (#[trigger] old(self).tasks@[i]).attempts
                    < u64::MAX,
        ensures
            final(self).wf(),
            r is None ==> final(self).tasks@ == old(self).tasks@,
            r is None ==> forall|i: int|
                0 <= i < old(self).tasks@.len() ==> !spec_eligible(#[trigger] old(self).tasks@[i]),
            r is Some ==> spec_has_claim_choice(old(self).tasks@),
            r is Some ==> {
                let i = spec_claim_index(old(self).tasks@);
                &&& final(self).tasks@ == old(self).tasks@.update(
                    i,
                    spec_claimed(old(self).tasks@[i], now),
                )
                &&& r->0.id == old(self).tasks@[i].id
                &&& r->0.chat_id == old(self).tasks@[i].chat_id
                &&& r->0.update_id == old(self).tasks@[i].update_id
                &&& r->0.text@ == old(self).tasks@[i].text@
            },
    {
        let choice = match self.find_first_with(TaskStatus::Queued) {
            Some(i) => Some(i),
            None => self.find_first_with(TaskStatus::Failed),
        };
        match choice {
            None => {
                proof {
                    assert forall|i: int|
                        0 <= i < old(self).tasks@.len() implies !spec_eligible(
                        #[trigger] old(self).tasks@[i],
                    ) by {
                        assert(old(self).tasks@[i].status != TaskStatus::Queued);
                        assert(old(self).tasks@[i].status != TaskStatus::Failed);
                    }
                }
                None
            },
            Some(i) => {
                let ghost before = self.tasks@;
                let picked_row = self.tasks.remove(i);
                let text_copy = picked_row.text.clone();
                let claimed = Task {
                    id: picked_row.id,
                    update_id: picked_row.update_id,
                    chat_id: picked_row.chat_id,
                    text: picked_row.text,
                    message_date: picked_row.message_date,
                    status: TaskStatus::InProgress,
                    attempts: picked_row.attempts + 1,
                    locked_at: Some(now),
                    error: None,
                };
                self.tasks.insert(i, claimed);
                let picked = QueueTask {
                    id: picked_row.id,
                    chat_id: picked_row.chat_id,
                    update_id: picked_row.update_id,
                    text: text_copy,
                };
                proof {
                    assert(spec_is_claim_choice(old(self).tasks@, i as int));
                    lemma_claim_choice_unique(
                        old(self).tasks@,
                        spec_claim_index(old(self).tasks@),
                        i as int,
                    );
                    assert(self.tasks@ =~= old(self).tasks@.update(
                        i as int,
                        spec_claimed(old(self).tasks@[i as int], now),
                    ));
                }
                Some(picked)
            },
        }
    }

    /// Terminal success: the row, if it exists, becomes `Done` with its
    /// error cleared; everything else is untouched.
    pub fn mark_task_done(&mut self, task_id: i64)
        requires
            old(self).wf(),
        ensures
            final(self).wf(),
            final(self).tasks@.len() == old(self).tasks@.len(),
            forall|j: int|
                0 <= j < old(self).tasks@.len() && j != task_id - 1 ==> final(self).tasks@[j]
                    == old(self).tasks@[j],
            1 <= task_id <= old(self).tasks@.len() ==> {
                let t = old(self).tasks@[task_id - 1];
                final(self).tasks@[task_id - 1] == Task {
                    status: TaskStatus::Done,
                    error: None,
                    ..t
                }
            },
            !(1 <= task_id <= old(self).tasks@.len()) ==> final(self).tasks@ == old(self).tasks@,
    {
        if task_id >= 1 && (task_id as u64) <= (self.tasks.len() as u64) {
            let i = (task_id - 1) as usize;
            let row = self.tasks.remove(i);
            let done = Task {
                id: row.id,
                update_id: row.update_id,
                chat_id: row.chat_id,
                text: row.text,
                message_date: row.message_date,
                status: TaskStatus::Done,
                attempts: row.attempts,
                locked_at: row.locked_at,
                error: None,
            };
            self.tasks.insert(i, done);
            assert(final(self).tasks@ =~= old(self).tasks@.update(
                task_id - 1,
                Task { status: TaskStatus::Done, error: None, ..old(self).tasks@[task_id - 1] },
            ));
        } else {
            assert(final(self).tasks@ =~= old(self).tasks@);
        }
    }

    /// Terminal failure: the row, if it exists, becomes `Failed` with the
    /// error text kept, truncated to the audit bound; the row stays
    /// eligible for a later claim.
    pub fn mark_task_failed(&mut self, task_id: i64, error: &str)
        requires
            old(self).wf(),
        ensures
            final(self).wf(),
            final(self).tasks@.len() == old(self).tasks@.len(),
            forall|j: int|
                0 <= j < old(self).tasks@.len() && j != task_id - 1 ==> final(self).tasks@[j]
                    == old(self).tasks@[j],
            1 <= task_id <= old(self).tasks@.len() ==> spec_failed_row(
                old(self).tasks@[task_id - 1],
                final(self).tasks@[task_id - 1],
                error@,
            ),
            !(1 <= task_id <= old(self).tasks@.len()) ==> final(self).tasks@ == old(self).tasks@,
    {
        if task_id >= 1 && (task_id as u64) <= (self.tasks.len() as u64) {
            let i = (task_id - 1) as usize;
            let row = self.tasks.remove(i);
            let failed = Task {
                id: row.id,
                update_id: row.update_id,
                chat_id: row.chat_id,
                text: row.text,
                message_date: row.message_date,
                status: TaskStatus::Failed,
                attempts: row.attempts,
                locked_at: row.locked_at,
                error: Some(truncate_for_telegram(error, 1000)),
            };
            self.tasks.insert(i, failed);
            assert(final(self).tasks@.len() == old(self).tasks@.len());
        } else {
            assert(final(self).tasks@ =~= old(self).tasks@);
        }
    }

    /// Rebuild the queue from stored rows, re-checking the invariants the
    /// store is supposed to have kept.
    pub fn from_rows(rows: Vec<Task>) -> (r: Option<InboxQueue>)
        ensures
            match r {
                Some(q) => q.wf() && q.tasks@ == rows@,
                None => !wf_tasks(rows@),
            },
    {
        let n = rows.len();
        if (n as u64) > 0x7fff_ffff_ffff_ffffu64 {
            return None;
        }
        let mut i: usize = 0;
        while i < n
            invariant
                n == rows@.len(),
                n <= 0x7fff_ffff_ffff_ffff,
                i <= n,
                forall|j: int| 0 <= j < i ==> (#[trigger] rows@[j]).id == j + 1,
            decreases n - i,
        {
            if rows[i].id != (i as i64) + 1 {
                return None;
            }
            i += 1;
        }
        let mut a: usize = 0;
        while a < n
            invariant
                n == rows@.len(),
                a <= n,
                forall|p: int, q: int|
                    0 <= p < q < n && p < a ==> #[trigger] rows@[p].update_id
                        != #[trigger] rows@[q].update_id,
            decreases n - a,
        {
            let mut b: usize = a + 1;
            while b < n
                invariant
                    n == rows@.len(),
                    a < n,
                    a + 1 <= b <= n,
                    forall|q: int| a < q < b ==> #[trigger] rows@[q].update_id != rows@[a as int].update_id,
                decreases n - b,
            {
                if rows[b].update_id == rows[a].update_id {
                    return None;
                }
                b += 1;
            }
            a += 1;
        }
        Some(InboxQueue { tasks: rows })
    }
}

/// A queue never holds two rows for one update identifier: ingestion is
/// idempotent per update.
pub proof fn lemma_update_row_unique(s: Seq<Task>, i: int, j: int)
    requires
        wf_tasks(s),
        0 <= i < s.len(),
        0 <= j < s.len(),
        s[i].update_id == s[j].update_id,
    ensures
        i == j,
{
}

/// Exactly one claimer receives any given row: a claim only selects a row
/// that is not `InProgress`, and leaves the selected row `InProgress`, so
/// a second claim over the resulting queue never selects the same row.
pub proof fn lemma_claim_exclusive(
    before: Seq<Task>,
    after: Seq<Task>,
    i: int,
    j: int,
    now: i64,
)
    requires
        spec_is_claim_choice(before, i),
        after == before.update(i, spec_claimed(before[i], now)),
        spec_is_claim_choice(after, j),
    ensures
        before[i].status != TaskStatus::InProgress,
        after[i].status == TaskStatus::InProgress,
        j != i,
{
}

/// A failed row is observably retried: while no row is `Queued`, the first
/// `Failed` row is the claim's choice, and claiming it strictly increases
/// its attempt counter.
pub proof fn lemma_failed_task_retried(s: Seq<Task>, i: int, now: i64)
    requires
        wf_tasks(s),
        0 <= i < s.len(),
        s[i].status == TaskStatus::Failed,
        s[i].attempts < u64::MAX,
        forall|j: int| 0 <= j < s.len() ==> (#[trigger] s[j]).status != TaskStatus::Queued,
        forall|j: int| 0 <= j < i ==> (#[trigger] s[j]).status != TaskStatus::Failed,
    ensures
        spec_is_claim_choice(s, i),
        spec_claimed(s[i], now).attempts > s[i].attempts,
        spec_eligible(s[i]),
{
}

} // verus!
