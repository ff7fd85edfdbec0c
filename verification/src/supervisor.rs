//! The supervisor's crash-loop accounting and rollback state machine.
//!
//! The supervisor spawns the worker, waits for it to exit, classifies the
//! run by its uptime, counts crashes over a trailing window, and when the
//! count reaches the threshold decides a rollback to the last known good
//! revision. The process control itself (spawning, revision checkout,
//! rebuild) is outside work; this module owns every decision around it and
//! the persisted supervisor state.

use vstd::prelude::*;
use vstd::string::StrSliceExecFns;
use vstd::string::StringExecFns;

use crate::text::format_u64;
use crate::text::format_u64_padded;
use crate::text::spec_decimal;
use crate::text::spec_trim;
use crate::text::spec_zero_padded;
use crate::text::trim_str;

verus! {

/// How an observed worker exit is classified: a run at least as long as
/// the stability threshold is stable, anything shorter is a crash.
#[derive(Clone, Copy, PartialEq, Eq, Structural, Debug)]
pub enum ExitClass {
    Stable,
    Crash,
}

pub fn classify_exit(uptime_seconds: u64, stable_run_seconds: u64) -> (r: ExitClass)
    ensures
        r == if uptime_seconds >= stable_run_seconds {
            ExitClass::Stable
        } else {
            ExitClass::Crash
        },
{
    if uptime_seconds >= stable_run_seconds {
        ExitClass::Stable
    } else {
        ExitClass::Crash
    }
}

/// The crash timestamps that survive pruning: those within `window`
/// seconds of `now`, in their recorded order.
pub open spec fn spec_pruned(s: Seq<i64>, now: int, window: int) -> Seq<i64>
    decreases s.len(),
{
    if s.len() == 0 {
        Seq::empty()
    } else {
        let rest = spec_pruned(s.drop_last(), now, window);
        if now - s.last() <= window {
            rest.push(s.last())
        } else {
            rest
        }
    }
}

/// When every entry lies inside the window, pruning keeps all of them.
pub proof fn lemma_pruned_all_within(s: Seq<i64>, now: int, window: int)
    requires
        forall|i: int| 0 <= i < s.len() ==> now - #[trigger] s[i] <= window,
    ensures
        spec_pruned(s, now, window) == s,
    decreases s.len(),
{
    if s.len() == 0 {
        assert(spec_pruned(s, now, window) =~= s);
    } else {
        lemma_pruned_all_within(s.drop_last(), now, window);
        assert(spec_pruned(s.drop_last(), now, window).push(s.last()) =~= s);
    }
}

/// The sliding crash accounting: timestamps of runs classified as
/// crashes, pruned against the trailing window at every new crash.
pub struct CrashTracker {
    pub crash_times: Vec<i64>,
}

impl CrashTracker {
    /// Timestamps are seconds since the epoch, so never negative.
    pub open spec fn wf(&self) -> bool {
        forall|i: int| 0 <= i < self.crash_times@.len() ==> 0 <= #[trigger] self.crash_times@[i]
    }

    pub fn new() -> (t: CrashTracker)
        ensures
            t.wf(),
            t.crash_times@.len() == 0,
    {
        CrashTracker { crash_times: Vec::new() }
    }

    /// A stable run clears the accumulated crash history.
    pub fn record_stable(&mut self)
        ensures
            final(self).wf(),
            final(self).crash_times@.len() == 0,
    {
        self.crash_times.clear();
    }

    /// Account one crash at `now`: append it, prune everything older than
    /// the window, and report whether the pruned count reached the
    /// threshold; reaching it resets the accounting to empty, so one
    /// threshold crossing triggers exactly one rollback attempt.
    pub fn record_crash(&mut self, now: i64, window_seconds: u64, threshold: usize) -> (triggered: bool)
        requires
            old(self).wf(),
            now >= 0,
            forall|i: int|
                0 <= i < old(self).crash_times@.len() ==> #[trigger] old(self).crash_times@[i]
                    <= now,
        ensures
            final(self).wf(),
            triggered == (spec_pruned(old(self).crash_times@.push(now), now as int, window_seconds as int).len()
                >= threshold),
            triggered ==> final(self).crash_times@.len() == 0,
            !triggered ==> final(self).crash_times@ == spec_pruned(
                old(self).crash_times@.push(now),
                now as int,
                window_seconds as int,
            ),
    {
        self.crash_times.push(now);
        let ghost appended = self.crash_times@;
        let n = self.crash_times.len();
        let mut kept: Vec<i64> = Vec::new();
        let mut i: usize = 0;
        while i < n
            invariant
                n == appended.len(),
                i <= n,
                appended == old(self).crash_times@.push(now),
                self.crash_times@ == appended,
                now >= 0,
                forall|j: int| 0 <= j < appended.len() ==> 0 <= #[trigger] appended[j] <= now,
                kept@ == spec_pruned(appended.take(i as int), now as int, window_seconds as int),
                forall|j: int| 0 <= j < kept@.len() ==> 0 <= #[trigger] kept@[j] <= now,
            decreases n - i,
        {
            let t = self.crash_times[i];
            assert(appended.take(i + 1).drop_last() =~= appended.take(i as int));
            if (now - t) as u64 <= window_seconds {
                kept.push(t);
            } else {
                proof {
                    assert(now - t > window_seconds);
                }
            }
            i += 1;
        }
        assert(appended.take(n as int) =~= appended);
        let pruned_len = kept.len();
        if pruned_len >= threshold {
            self.crash_times.clear();
            true
        } else {
            self.crash_times = kept;
            false
        }
    }
}

/// With the prior crashes all inside the window, the crash that brings
/// the count to the threshold triggers the rollback, and not one before.
pub proof fn lemma_crash_threshold(s: Seq<i64>, now: i64, window_seconds: u64, threshold: usize)
    requires
        forall|i: int| 0 <= i < s.len() ==> now - #[trigger] s[i] <= window_seconds,
    ensures
        (spec_pruned(s.push(now), now as int, window_seconds as int).len() >= threshold) == (s.len()
            + 1 >= threshold),
{
    let appended = s.push(now);
    assert(forall|i: int|
        0 <= i < appended.len() ==> now - #[trigger] appended[i] <= window_seconds);
    lemma_pruned_all_within(appended, now as int, window_seconds as int);
}

/// One revision the supervisor has judged, as the revision table stores
/// it.
pub struct RevisionRecord {
    pub revision: String,
    pub build_ok: bool,
    pub health_ok: bool,
    pub promoted_at: Option<i64>,
    pub failure_reason: Option<String>,
}

/// The persisted supervisor state: the judged revisions, the pointer to
/// the revision a rollback would target, the last failure reason, and the
/// durable worker-instance sequence counter.
pub struct SupervisorStore {
    pub revisions: Vec<RevisionRecord>,
    pub current_good_rev: Option<String>,
    pub last_failure_reason: Option<String>,
    pub worker_instance_seq: u64,
}

pub open spec fn wf_revisions(s: Seq<RevisionRecord>) -> bool {
    forall|i: int, j: int|
        0 <= i < j < s.len() ==> #[trigger] s[i].revision@ != #[trigger] s[j].revision@
}

pub open spec fn spec_has_revision(s: Seq<RevisionRecord>, rev: Seq<char>) -> bool {
    exists|i: int| 0 <= i < s.len() && (#[trigger] s[i]).revision@ == rev
}

pub open spec fn spec_revision_index(s: Seq<RevisionRecord>, rev: Seq<char>) -> int {
    choose|i: int| 0 <= i < s.len() && (#[trigger] s[i]).revision@ == rev
}

/// A promoted record: built, healthy, stamped now, prior failure kept.
pub open spec fn spec_promoted(r: RevisionRecord, now: i64) -> RevisionRecord {
    RevisionRecord {
        revision: r.revision,
        build_ok: true,
        health_ok: true,
        promoted_at: Some(now),
        failure_reason: r.failure_reason,
    }
}

/// What recording a stable run's revision does to the store: the record
/// for `rev` is created or refreshed as promoted, the rollback pointer
/// moves to `rev`, and nothing else changes.
pub open spec fn spec_marked_good(
    pre: SupervisorStore,
    post: SupervisorStore,
    rev: Seq<char>,
    now: i64,
) -> bool {
    &&& post.worker_instance_seq == pre.worker_instance_seq
    &&& post.last_failure_reason == pre.last_failure_reason
    &&& match post.current_good_rev {
        Some(r) => r@ == rev,
        None => false,
    }
    &&& spec_has_revision(pre.revisions@, rev) ==> post.revisions@ == pre.revisions@.update(
        spec_revision_index(pre.revisions@, rev),
        spec_promoted(pre.revisions@[spec_revision_index(pre.revisions@, rev)], now),
    )
    &&& !spec_has_revision(pre.revisions@, rev) ==> {
        &&& post.revisions@.len() == pre.revisions@.len() + 1
        &&& post.revisions@.take(pre.revisions@.len() as int) == pre.revisions@
        &&& {
            let added = post.revisions@.last();
            &&& added.revision@ == rev
            &&& added.build_ok
            &&& added.health_ok
            &&& added.promoted_at == Some(now)
            &&& added.failure_reason is None
        }
    }
}

impl SupervisorStore {
    pub open spec fn wf(&self) -> bool {
        wf_revisions(self.revisions@)
    }

    pub fn new() -> (s: SupervisorStore)
        ensures
            s.wf(),
            s.revisions@.len() == 0,
            s.current_good_rev is None,
            s.last_failure_reason is None,
            s.worker_instance_seq == 0,
    {
        SupervisorStore {
            revisions: Vec::new(),
            current_good_rev: None,
            last_failure_reason: None,
            worker_instance_seq: 0,
        }
    }

    fn find_revision(&self, revision: &str) -> (r: Option<usize>)
        ensures
            match r {
                Some(k) => k < self.revisions@.len() && self.revisions@[k as int].revision@
                    == revision@,
                None => forall|j: int|
                    0 <= j < self.revisions@.len() ==> (#[trigger] self.revisions@[j]).revision@
                        != revision@,
            },
    {
        let n = self.revisions.len();
        let mut i: usize = 0;
        while i < n
            invariant
                n == self.revisions@.len(),
                i <= n,
                forall|j: int|
                    0 <= j < i ==> (#[trigger] self.revisions@[j]).revision@ != revision@,
            decreases n - i,
        {
            if crate::text::str_eq(self.revisions[i].revision.as_str(), revision) {
                return Some(i);
            }
            i += 1;
        }
        None
    }

    /// Record a stable run's revision: create or refresh its record as
    /// built and healthy with a fresh promotion stamp, and point the
    /// rollback target at it.
    pub fn mark_good_revision(&mut self, revision: &str, now: i64)
        requires
            old(self).wf(),
        ensures
            final(self).wf(),
            spec_marked_good(*old(self), *final(self), revision@, now),
    {
        let found = self.find_revision(revision);
        match found {
            Some(k) => {
                proof {
                    assert(spec_has_revision(self.revisions@, revision@));
                    let ghost w = spec_revision_index(self.revisions@, revision@);
                    assert(0 <= w < self.revisions@.len() && self.revisions@[w].revision@
                        == revision@);
                    if w != k {
                        assert(false);
                    }
                }
                let row = self.revisions.remove(k);
                let promoted = RevisionRecord {
                    revision: row.revision,
                    build_ok: true,
                    health_ok: true,
                    promoted_at: Some(now),
                    failure_reason: row.failure_reason,
                };
                self.revisions.insert(k, promoted);
                self.current_good_rev = Some(revision.to_owned());
                proof {
                    assert(self.revisions@ =~= old(self).revisions@.update(
                        k as int,
                        spec_promoted(old(self).revisions@[k as int], now),
                    ));
                }
            },
            None => {
                let added = RevisionRecord {
                    revision: revision.to_owned(),
                    build_ok: true,
                    health_ok: true,
                    promoted_at: Some(now),
                    failure_reason: None,
                };
                self.revisions.push(added);
                self.current_good_rev = Some(revision.to_owned());
                proof {
                    assert(self.revisions@.take(old(self).revisions@.len() as int)
                        =~= old(self).revisions@);
                }
            },
        }
    }

    /// Persist the latest failure reason.
    pub fn set_failure(&mut self, reason: String)
        requires
            old(self).wf(),
        ensures
            final(self).wf(),
            final(self).last_failure_reason == Some(reason),
            final(self).revisions@ == old(self).revisions@,
            final(self).current_good_rev == old(self).current_good_rev,
            final(self).worker_instance_seq == old(self).worker_instance_seq,
    {
        self.last_failure_reason = Some(reason);
    }

    /// Mint the next worker instance identifier from the durable counter,
    /// so identifiers stay distinct across supervisor restarts.
    pub fn next_worker_instance_id(&mut self) -> (id: String)
        requires
            old(self).wf(),
            old(self).worker_instance_seq < u64::MAX,
        ensures
            final(self).wf(),
            final(self).worker_instance_seq == old(self).worker_instance_seq + 1,
            final(self).revisions@ == old(self).revisions@,
            final(self).current_good_rev == old(self).current_good_rev,
            final(self).last_failure_reason == old(self).last_failure_reason,
            id@ == spec_instance_id((old(self).worker_instance_seq + 1) as nat),
    {
        let next = self.worker_instance_seq + 1;
        self.worker_instance_seq = next;
        let digits = format_u64_padded(next, 6);
        let id = String::from_str("W").concat(digits.as_str());
        proof {
            reveal_strlit("W");
            assert(id@ =~= spec_instance_id(next as nat));
        }
        id
    }
}

/// Rebuild the store from its persisted parts, re-checking that the
/// revision table kept its rows distinct.
pub fn restore_supervisor_store(
    revisions: Vec<RevisionRecord>,
    current_good_rev: Option<String>,
    last_failure_reason: Option<String>,
    worker_instance_seq: u64,
) -> (r: Option<SupervisorStore>)
    ensures
        match r {
            Some(s) => {
                &&& s.wf()
                &&& s.revisions@ == revisions@
                &&& s.current_good_rev == current_good_rev
                &&& s.last_failure_reason == last_failure_reason
                &&& s.worker_instance_seq == worker_instance_seq
            },
            None => !wf_revisions(revisions@),
        },
{
    let n = revisions.len();
    let mut a: usize = 0;
    while a < n
        invariant
            n == revisions@.len(),
            a <= n,
            forall|p: int, q: int|
                0 <= p < q < n && p < a ==> #[trigger] revisions@[p].revision@
                    != #[trigger] revisions@[q].revision@,
        decreases n - a,
    {
        let mut b: usize = a + 1;
        while b < n
            invariant
                n == revisions@.len(),
                a < n,
                a + 1 <= b <= n,
                forall|q: int|
                    a < q < b ==> #[trigger] revisions@[q].revision@
                        != revisions@[a as int].revision@,
            decreases n - b,
        {
            if crate::text::str_eq(revisions[b].revision.as_str(), revisions[a].revision.as_str())
            {
                return None;
            }
            b += 1;
        }
        a += 1;
    }
    Some(
        SupervisorStore { revisions, current_good_rev, last_failure_reason, worker_instance_seq },
    )
}

/// A worker instance identifier: `W` and the counter value, zero padded
/// to six digits.
pub open spec fn spec_instance_id(n: nat) -> Seq<char> {
    seq!['W'] + spec_zero_padded(n, 6)
}

/// What a rollback attempt should do, decided from the persisted good
/// revision and the configuration: with no good revision known there is
/// nothing to do; with automatic rollback disabled the target is only
/// reported; otherwise the workspace is checked out and rebuilt.
pub enum RollbackPlan {
    NoKnownGood,
    DisabledLog { target: String },
    Checkout { target: String },
}

/// The plan that the persisted pointer and the configuration demand:
/// nothing without a known good revision, a report without workspace
/// mutation while automatic rollback is off, a checkout otherwise.
pub open spec fn spec_planned_rollback(
    good: Option<String>,
    auto_rollback: bool,
    plan: RollbackPlan,
) -> bool {
    match good {
        None => plan is NoKnownGood,
        Some(rev) => if auto_rollback {
            match plan {
                RollbackPlan::Checkout { target } => target@ == rev@,
                _ => false,
            }
        } else {
            match plan {
                RollbackPlan::DisabledLog { target } => target@ == rev@,
                _ => false,
            }
        },
    }
}

pub fn rollback_plan(current_good_rev: &Option<String>, auto_rollback: bool) -> (r: RollbackPlan)
    ensures
        spec_planned_rollback(*current_good_rev, auto_rollback, r),
{
    match current_good_rev {
        None => RollbackPlan::NoKnownGood,
        Some(rev) => {
            if auto_rollback {
                RollbackPlan::Checkout { target: rev.clone() }
            } else {
                RollbackPlan::DisabledLog { target: rev.clone() }
            }
        },
    }
}

/// Which step of an executed rollback failed.
#[derive(Clone, Copy, PartialEq, Eq, Structural, Debug)]
pub enum RollbackFailure {
    CheckoutFailed,
    BuildFailed,
}

impl RollbackFailure {
    /// The distinct persisted reason for each failed step.
    pub fn reason_text(&self) -> (r: String)
        ensures
            *self == RollbackFailure::CheckoutFailed ==> r@ == "rollback_failed_git_checkout"@,
            *self == RollbackFailure::BuildFailed ==> r@ == "rollback_failed_build"@,
    {
        match self {
            RollbackFailure::CheckoutFailed => String::from_str("rollback_failed_git_checkout"),
            RollbackFailure::BuildFailed => String::from_str("rollback_failed_build"),
        }
    }
}

/// Judge an executed rollback: a failed checkout aborts before any build,
/// a failed build aborts after a good checkout, otherwise the rollback
/// completed. `build_ok` is present exactly when the checkout succeeded,
/// since only then is a build attempted.
pub fn rollback_result(checkout_ok: bool, build_ok: Option<bool>) -> (r: Option<RollbackFailure>)
    requires
        checkout_ok <==> build_ok is Some,
    ensures
        r == if !checkout_ok {
            Some(RollbackFailure::CheckoutFailed)
        } else if build_ok == Some(false) {
            Some(RollbackFailure::BuildFailed)
        } else {
            None::<RollbackFailure>
        },
{
    if !checkout_ok {
        Some(RollbackFailure::CheckoutFailed)
    } else {
        match build_ok {
            Some(true) => None,
            Some(false) => Some(RollbackFailure::BuildFailed),
            None => None,
        }
    }
}

/// The head revision as reported by the revision-control query: the
/// trimmed output, provided the query succeeded and printed anything.
pub fn parse_head_revision(status_ok: bool, stdout_text: &str) -> (r: Option<String>)
    ensures
        match r {
            Some(rev) => status_ok && rev@ == spec_trim(stdout_text@) && rev@.len() > 0,
            None => !status_ok || spec_trim(stdout_text@).len() == 0,
        },
{
    if !status_ok {
        return None;
    }
    let trimmed = trim_str(stdout_text);
    if trimmed.as_str().unicode_len() == 0 {
        None
    } else {
        Some(trimmed)
    }
}

/// A stable run observed: clear the crash history, and when the head
/// revision is known, promote it to the good-revision pointer — whatever
/// crash count had accumulated before.
pub fn handle_stable_exit(
    tracker: &mut CrashTracker,
    store: &mut SupervisorStore,
    head_rev: &Option<String>,
    now: i64,
)
    requires
        old(store).wf(),
    ensures
        final(tracker).wf(),
        final(tracker).crash_times@.len() == 0,
        final(store).wf(),
        match head_rev {
            Some(rev) => spec_marked_good(*old(store), *final(store), rev@, now),
            None => *final(store) == *old(store),
        },
{
    if let Some(rev) = head_rev {
        store.mark_good_revision(rev.as_str(), now);
    }
    tracker.record_stable();
}

/// A crash observed: account it against the window, and when the count
/// reaches the threshold, persist the crash-loop reason and decide the
/// rollback; the accounting is reset in the same step, so the very next
/// restart starts counting from zero.
pub fn handle_crash_exit(
    tracker: &mut CrashTracker,
    store: &mut SupervisorStore,
    now: i64,
    window_seconds: u64,
    threshold: usize,
    auto_rollback: bool,
) -> (plan: Option<RollbackPlan>)
    requires
        old(tracker).wf(),
        old(store).wf(),
        now >= 0,
        forall|i: int|
            0 <= i < old(tracker).crash_times@.len() ==> #[trigger] old(tracker).crash_times@[i]
                <= now,
    ensures
        final(tracker).wf(),
        final(store).wf(),
        ({
            let pruned = spec_pruned(
                old(tracker).crash_times@.push(now),
                now as int,
                window_seconds as int,
            );
            if pruned.len() >= threshold {
                &&& final(tracker).crash_times@.len() == 0
                &&& final(store).revisions@ == old(store).revisions@
                &&& final(store).current_good_rev == old(store).current_good_rev
                &&& final(store).worker_instance_seq == old(store).worker_instance_seq
                &&& match final(store).last_failure_reason {
                    Some(rz) => rz@ == spec_crash_loop_reason(
                        threshold as nat,
                        window_seconds as nat,
                    ),
                    None => false,
                }
                &&& match plan {
                    Some(p) => spec_planned_rollback(
                        old(store).current_good_rev,
                        auto_rollback,
                        p,
                    ),
                    None => false,
                }
            } else {
                &&& final(tracker).crash_times@ == pruned
                &&& *final(store) == *old(store)
                &&& plan is None
            }
        }),
{
    let triggered = tracker.record_crash(now, window_seconds, threshold);
    if triggered {
        store.set_failure(crash_loop_reason(threshold, window_seconds));
        Some(rollback_plan(&store.current_good_rev, auto_rollback))
    } else {
        None
    }
}

/// The persisted reason for a crash-loop trigger, naming the threshold
/// and the window.
pub open spec fn spec_crash_loop_reason(threshold: nat, window_seconds: nat) -> Seq<char> {
    "crash_loop threshold="@ + spec_decimal(threshold) + " window="@ + spec_decimal(window_seconds)
        + "s"@
}

pub fn crash_loop_reason(threshold: usize, window_seconds: u64) -> (r: String)
    ensures
        r@ == spec_crash_loop_reason(threshold as nat, window_seconds as nat),
{
    let mut s = String::from_str("crash_loop threshold=");
    s.append(format_u64(threshold as u64).as_str());
    s.append(" window=");
    s.append(format_u64(window_seconds).as_str());
    s.append("s");
    proof {
        assert(s@ =~= spec_crash_loop_reason(threshold as nat, window_seconds as nat));
    }
    s
}

} // verus!
