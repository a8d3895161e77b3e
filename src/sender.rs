//! Typing a string: the press/release reports for each byte, written one at
//! a time and stopping at the first write that fails.
use vstd::prelude::*;
use crate::keycode::keycode_of;
use crate::report::{REPORT_LEN, press_report, release_report, reports_for, string_reports};
use crate::run::{Progress, RunState, fresh, pending, after, drive, lemma_run_completes,
    lemma_run_stops_at_first_failure};

verus! {

/// The reports that type a string, and how many of them were written.
pub struct KeySender {
    reports: Vec<[u8; REPORT_LEN]>,
    progress: Progress,
}

impl KeySender {
    /// The reports, in the order they are written.
    pub closed spec fn reports(&self) -> Seq<Seq<u8>> {
        self.reports@.map_values(|r: [u8; REPORT_LEN]| r@)
    }

    /// How far the writing has come.
    pub closed spec fn state(&self) -> RunState {
        self.progress@
    }

    /// Internal consistency: one step per report.
    pub closed spec fn wf(&self) -> bool {
        &&& self.progress.wf()
        &&& self.progress@.total == self.reports@.len()
    }

    /// A sender for `text`, nothing written yet.
    pub fn new(text: &[u8]) -> (r: KeySender)
        ensures
            r.wf(),
            r.reports() == reports_for(text@),
            r.state() == fresh(2 * text@.len()),
    {
        let reports = string_reports(text);
        assert(reports@.map_values(|r: [u8; REPORT_LEN]| r@) =~= reports_for(text@));
        let n = reports.len();
        KeySender { reports, progress: Progress::new(n) }
    }

    /// The report to write next, if one is owed.
    pub fn next_report(&self) -> (r: Option<[u8; REPORT_LEN]>)
        requires
            self.wf(),
        ensures
            r is Some <==> pending(self.state()),
            r matches Some(rep) ==> rep@ == self.reports()[self.state().attempted as int],
    {
        match self.progress.next_index() {
            Some(i) => Some(self.reports[i]),
            None => None,
        }
    }

    /// Records whether the owed report was written.
    pub fn record(&mut self, ok: bool)
        requires
            old(self).wf(),
            pending(old(self).state()),
        ensures
            final(self).wf(),
            final(self).reports() == old(self).reports(),
            final(self).state() == after(old(self).state(), ok),
    {
        self.progress.record(ok);
    }

    /// Whether every report was written.
    pub fn succeeded(&self) -> (r: bool)
        requires
            self.wf(),
        ensures
            r == (!self.state().failed && self.state().attempted == self.state().total),
    {
        self.progress.succeeded()
    }
}

/// When every write succeeds, typing a string of `n` bytes writes `2 * n`
/// reports: for each byte its key press, then the all-zero release.
pub proof fn lemma_send_writes_all(text: Seq<u8>, results: Seq<bool>)
    requires
        results.len() == 2 * text.len(),
        forall|j: int| 0 <= j < results.len() ==> #[trigger] results[j],
    ensures
        drive(fresh(reports_for(text).len()), results).attempted == 2 * text.len(),
        !drive(fresh(reports_for(text).len()), results).failed,
        forall|i: int|
            0 <= i < text.len() ==> reports_for(text)[2 * i] == press_report(
                keycode_of(#[trigger] text[i]),
            ) && reports_for(text)[2 * i + 1] == release_report(),
{
    lemma_run_completes(results);
    assert forall|i: int| 0 <= i < text.len() implies reports_for(text)[2 * i] == press_report(
        keycode_of(#[trigger] text[i]),
    ) && reports_for(text)[2 * i + 1] == release_report() by {
        assert((2 * i) / 2 == i);
        assert((2 * i + 1) / 2 == i);
        assert((2 * i) % 2 == 0);
        assert((2 * i + 1) % 2 == 1);
    }
}

/// Typing stops at the first failing write: when write `k` fails and every
/// earlier one succeeds, exactly `k + 1` reports are written, and no report
/// of a byte after byte `k / 2` is ever attempted.
pub proof fn lemma_send_stops_at_failure(text: Seq<u8>, results: Seq<bool>, k: nat)
    requires
        results.len() == 2 * text.len(),
        k < results.len(),
        !results[k as int],
        forall|j: int| 0 <= j < k ==> #[trigger] results[j],
    ensures
        drive(fresh(reports_for(text).len()), results).attempted == k + 1,
        drive(fresh(reports_for(text).len()), results).failed,
        k + 1 <= 2 * (k / 2 + 1),
{
    lemma_run_stops_at_first_failure(results, k);
}

} // verus!
