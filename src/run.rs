//! Ordered execution of a fixed number of steps that stops at the first
//! failure.
//!
//! The steps themselves are performed by the caller: it asks for the next
//! step, performs it, and records whether it succeeded.
use vstd::prelude::*;

verus! {

/// Where a run stands: how many steps it has, how many were attempted, and
/// whether the last attempted one failed.
pub struct RunState {
    pub total: nat,
    pub attempted: nat,
    pub failed: bool,
}

/// A run of `total` steps before any is attempted.
pub open spec fn fresh(total: nat) -> RunState {
    RunState { total, attempted: 0, failed: false }
}

/// A step is still owed: nothing failed and not every step was attempted.
pub open spec fn pending(s: RunState) -> bool {
    !s.failed && s.attempted < s.total
}

/// The state after the pending step is attempted with outcome `ok`.
pub open spec fn after(s: RunState, ok: bool) -> RunState {
    RunState { total: s.total, attempted: s.attempted + 1, failed: !ok }
}

/// The state reached by performing steps while one is owed, step `i`
/// succeeding exactly when `results[i]` holds.
pub open spec fn drive(s: RunState, results: Seq<bool>) -> RunState
    decreases s.total - s.attempted,
{
    if pending(s) && s.attempted < results.len() {
        drive(after(s, results[s.attempted as int]), results)
    } else {
        s
    }
}

/// Progress through a run of steps.
pub struct Progress {
    total: usize,
    attempted: usize,
    failed: bool,
}

impl View for Progress {
    type V = RunState;

    closed spec fn view(&self) -> RunState {
        RunState { total: self.total as nat, attempted: self.attempted as nat, failed: self.failed }
    }
}

impl Progress {
    /// Internal consistency: no more attempts than steps, and a failure
    /// only after an attempt.
    pub open spec fn wf(&self) -> bool {
        &&& self@.attempted <= self@.total
        &&& self@.failed ==> self@.attempted > 0
    }

    /// A run of `total` steps, none attempted.
    pub fn new(total: usize) -> (r: Progress)
        ensures
            r.wf(),
            r@ == fresh(total as nat),
    {
        Progress { total, attempted: 0, failed: false }
    }

    /// The index of the step to perform next, if one is owed.
    pub fn next_index(&self) -> (r: Option<usize>)
        ensures
            r == (if pending(self@) {
                Some(self@.attempted as usize)
            } else {
                None::<usize>
            }),
            r matches Some(i) ==> i == self@.attempted && i < self@.total,
    {
        if !self.failed && self.attempted < self.total {
            Some(self.attempted)
        } else {
            None
        }
    }

    /// Records the outcome of the step that was owed.
    pub fn record(&mut self, ok: bool)
        requires
            old(self).wf(),
            pending(old(self)@),
        ensures
            final(self).wf(),
            final(self)@ == after(old(self)@, ok),
    {
        self.attempted = self.attempted + 1;
        self.failed = !ok;
    }

    /// How many steps were attempted.
    pub fn attempted(&self) -> (r: usize)
        ensures
            r == self@.attempted,
    {
        self.attempted
    }

    /// Whether the last attempted step failed.
    pub fn failed(&self) -> (r: bool)
        ensures
            r == self@.failed,
    {
        self.failed
    }

    /// Whether every step was attempted and none failed.
    pub fn succeeded(&self) -> (r: bool)
        ensures
            r == (!self@.failed && self@.attempted == self@.total),
    {
        !self.failed && self.attempted == self.total
    }
}

proof fn lemma_drive_all_ok(s: RunState, results: Seq<bool>)
    requires
        results.len() == s.total,
        !s.failed,
        s.attempted <= s.total,
        forall|j: int| s.attempted <= j < s.total ==> #[trigger] results[j],
    ensures
        drive(s, results) == (RunState { total: s.total, attempted: s.total, failed: false }),
    decreases s.total - s.attempted,
{
    if s.attempted < s.total {
        lemma_drive_all_ok(after(s, results[s.attempted as int]), results);
    }
}

proof fn lemma_drive_first_failure(s: RunState, results: Seq<bool>, k: nat)
    requires
        results.len() == s.total,
        !s.failed,
        s.attempted <= k < s.total,
        !results[k as int],
        forall|j: int| s.attempted <= j < k ==> #[trigger] results[j],
    ensures
        drive(s, results) == (RunState { total: s.total, attempted: k + 1, failed: true }),
    decreases s.total - s.attempted,
{
    let next = after(s, results[s.attempted as int]);
    if s.attempted < k {
        lemma_drive_first_failure(next, results, k);
    } else {
        assert(drive(next, results) == next);
    }
}

/// When every step succeeds, a run of `n` steps attempts all `n` and ends
/// without failure.
pub proof fn lemma_run_completes(results: Seq<bool>)
    requires
        forall|j: int| 0 <= j < results.len() ==> #[trigger] results[j],
    ensures
        drive(fresh(results.len()), results) == (RunState {
            total: results.len(),
            attempted: results.len(),
            failed: false,
        }),
{
    lemma_drive_all_ok(fresh(results.len()), results);
}

/// A run stops at its first failing step: when step `k` fails and every
/// earlier one succeeds, exactly steps `0..=k` are attempted and the steps
/// after `k` never are.
pub proof fn lemma_run_stops_at_first_failure(results: Seq<bool>, k: nat)
    requires
        k < results.len(),
        !results[k as int],
        forall|j: int| 0 <= j < k ==> #[trigger] results[j],
    ensures
        drive(fresh(results.len()), results) == (RunState {
            total: results.len(),
            attempted: k + 1,
            failed: true,
        }),
{
    lemma_drive_first_failure(fresh(results.len()), results, k);
}

} // verus!
