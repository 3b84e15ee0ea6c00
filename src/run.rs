use vstd::prelude::*;

use crate::summary::{bytes_sum, summarizes};
use crate::tasks::{tasks_for, total_url_count, Downloader};
use crate::transfer::{is_report_for, TransferOutcome};
use crate::types::{DownloadReport, DownloadSummary, DownloadTask, InventoryEntry};

verus! {

/// What the caller does next in a run.
#[derive(PartialEq, Eq, Structural, Clone, Copy, Debug)]
pub enum RunAction {
    /// Run the tasks `start..end` concurrently, then hand their outcomes to
    /// `complete_group` in task order.
    Start { start: usize, end: usize },
    /// A group is still running: nothing new may start.
    Wait,
    /// Every task has a report.
    Done,
}

/// A run in progress: tasks are dispatched in consecutive groups of at most
/// `parallelism`, and a group starts only once the previous one is complete.
/// `reports` holds one report per finished task, in task order.
pub struct DownloadRun {
    pub tasks: Vec<DownloadTask>,
    pub parallelism: usize,
    pub reports: Vec<DownloadReport>,
    pub in_flight: usize,
}

pub open spec fn min(a: int, b: int) -> int {
    if a <= b {
        a
    } else {
        b
    }
}

impl DownloadRun {
    /// Number of tasks that already have a report.
    pub open spec fn done(&self) -> int {
        self.reports@.len() as int
    }

    /// The size of the group that starts at `start`.
    pub open spec fn group_size(&self, start: int) -> int {
        min(self.parallelism as int, self.tasks@.len() - start)
    }

    pub open spec fn wf(&self) -> bool {
        &&& self.parallelism >= 1
        &&& self.done() <= self.tasks@.len()
        &&& self.done() % self.parallelism as int == 0 || self.done() == self.tasks@.len()
        &&& self.in_flight == 0 || self.in_flight == self.group_size(self.done())
        &&& forall|i: int| 0 <= i < self.done() ==> (#[trigger] self.reports@[i]).task == self.tasks@[i]
    }

    pub open spec fn is_finished(&self) -> bool {
        self.in_flight == 0 && self.done() == self.tasks@.len()
    }

    /// A run over `tasks` with nothing started yet.
    pub fn new(tasks: Vec<DownloadTask>, parallelism: usize) -> (r: DownloadRun)
        requires
            parallelism >= 1,
        ensures
            r.wf(),
            r.tasks == tasks,
            r.parallelism == parallelism,
            r.reports@.len() == 0,
            r.in_flight == 0,
    {
        DownloadRun { tasks, parallelism, reports: Vec::new(), in_flight: 0 }
    }

    /// The next step. While a group runs the answer is `Wait` and nothing
    /// changes; otherwise the next group starts, made of the following
    /// `parallelism` tasks (fewer at the end), or the run is `Done`.
    pub fn next_action(&mut self) -> (a: RunAction)
        requires
            old(self).wf(),
        ensures
            final(self).wf(),
            final(self).tasks == old(self).tasks,
            final(self).parallelism == old(self).parallelism,
            final(self).reports == old(self).reports,
            old(self).in_flight > 0 ==> a == RunAction::Wait && *final(self) == *old(self),
            old(self).in_flight == 0 && old(self).done() == old(self).tasks@.len() ==> a
                == RunAction::Done && final(self).in_flight == 0,
            old(self).in_flight == 0 && old(self).done() < old(self).tasks@.len() ==> a
                == (RunAction::Start {
                start: old(self).done() as usize,
                end: (old(self).done() + old(self).group_size(old(self).done())) as usize,
            }) && final(self).in_flight == old(self).group_size(old(self).done()),
    {
        if self.in_flight > 0 {
            return RunAction::Wait;
        }
        let start = self.reports.len();
        let n = self.tasks.len();
        if start == n {
            return RunAction::Done;
        }
        let size = if self.parallelism <= n - start {
            self.parallelism
        } else {
            n - start
        };
        self.in_flight = size;
        RunAction::Start { start, end: start + size }
    }

    /// The task at position `i`.
    pub fn task(&self, i: usize) -> (t: &DownloadTask)
        requires
            i < self.tasks@.len(),
        ensures
            *t == self.tasks@[i as int],
    {
        &self.tasks[i]
    }

    /// Records the outcomes of the running group, given in task order: the
    /// report of each task is appended at the task's own position.
    pub fn complete_group(&mut self, outcomes: Vec<TransferOutcome>)
        requires
            old(self).wf(),
            old(self).in_flight > 0,
            outcomes@.len() == old(self).in_flight,
        ensures
            final(self).wf(),
            final(self).tasks == old(self).tasks,
            final(self).parallelism == old(self).parallelism,
            final(self).in_flight == 0,
            final(self).done() == old(self).done() + outcomes@.len(),
            forall|i: int|
                0 <= i < old(self).done() ==> #[trigger] final(self).reports@[i] == old(
                    self,
                ).reports@[i],
            forall|j: int|
                0 <= j < outcomes@.len() ==> is_report_for(
                    #[trigger] final(self).reports@[old(self).done() + j],
                    old(self).tasks@[old(self).done() + j],
                    outcomes@[j],
                ),
    {
        let ghost start = self.reports@.len() as int;
        let ghost outs = outcomes@;
        let ghost old_reports = self.reports@;
        let mut j: usize = 0;
        while j < self.in_flight
            invariant
                self.tasks == old(self).tasks,
                self.parallelism == old(self).parallelism,
                self.in_flight == old(self).in_flight,
                start == old(self).done(),
                old_reports == old(self).reports@,
                old(self).wf(),
                j <= self.in_flight,
                self.in_flight == outs.len(),
                outcomes@ == outs,
                self.reports@.len() == start + j,
                forall|i: int| 0 <= i < start ==> #[trigger] self.reports@[i] == old_reports[i],
                forall|k: int|
                    0 <= k < j ==> is_report_for(
                        #[trigger] self.reports@[start + k],
                        self.tasks@[start + k],
                        outs[k],
                    ),
            decreases self.in_flight - j,
        {
            let task = self.tasks[self.reports.len()].clone();
            let report = DownloadReport::from_outcome(task, &outcomes[j]);
            self.reports.push(report);
            j = j + 1;
        }
        self.in_flight = 0;
        proof {
            let d = self.done();
            let p = self.parallelism as int;
            let n = self.tasks@.len() as int;
            if p <= n - start {
                assert(d == start + p);
                assert(d % p == 0) by {
                    vstd::arithmetic::div_mod::lemma_mod_add_multiples_vanish(start, p);
                }
            } else {
                assert(d == n);
            }
            assert forall|i: int| 0 <= i < d implies (#[trigger] self.reports@[i]).task
                == self.tasks@[i] by {
                if i >= start {
                    assert(is_report_for(self.reports@[start + (i - start)], self.tasks@[start + (i - start)], outs[i - start]));
                }
            }
        }
    }

    /// The summary of a finished run: its reports in task order, whatever
    /// order the transfers completed in. `None` exactly when the byte total
    /// does not fit in a `u64`.
    pub fn finish(self, total_duration_ms: u64) -> (r: Option<DownloadSummary>)
        requires
            self.wf(),
            self.is_finished(),
        ensures
            r is None <==> bytes_sum(self.reports@) > u64::MAX,
            r is Some ==> summarizes(r->Some_0, self.reports@, total_duration_ms),
            r is Some ==> r->Some_0.reports@.len() == self.tasks@.len(),
            r is Some ==> forall|i: int|
                0 <= i < self.tasks@.len() ==> (#[trigger] r->Some_0.reports@[i]).task
                    == self.tasks@[i],
    {
        DownloadSummary::from_reports(self.reports, total_duration_ms)
    }
}

/// At no point do more than `parallelism` transfers run: the running group
/// is never larger than the bound, and it never reaches past the last task.
pub proof fn lemma_bounded_concurrency(run: DownloadRun)
    requires
        run.wf(),
    ensures
        run.in_flight <= run.parallelism,
        run.done() + run.in_flight <= run.tasks@.len(),
{
}

impl Downloader {
    /// A run over the tasks of `inventory`, with this downloader's
    /// parallelism.
    pub fn start_run(&self, inventory: Vec<InventoryEntry>, output_dir: &str) -> (r: DownloadRun)
        requires
            self.parallelism >= 1,
        ensures
            r.wf(),
            tasks_for(r.tasks@, inventory@, output_dir@),
            r.tasks@.len() == total_url_count(inventory@),
            r.parallelism == self.parallelism,
            r.reports@.len() == 0,
            r.in_flight == 0,
    {
        let tasks = self.create_download_tasks(inventory, output_dir);
        DownloadRun::new(tasks, self.parallelism)
    }
}

} // verus!
