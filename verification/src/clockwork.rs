//! The cooperative tick scheduler. A host loop polls `run_pending` once
//! per frame with the current clock reading; the scheduler re-arms every
//! job that is due and reports which ones, each at most once per sweep,
//! and the host then performs each reported job's work synchronously.

use vstd::prelude::*;

verus! {

/// One periodic job: due again once `period_ms` has elapsed since its
/// last run.
#[derive(Clone, Copy, PartialEq, Eq, Structural, Debug)]
pub struct Job {
    pub period_ms: u64,
    pub last_run_ms: u64,
}

pub open spec fn spec_pending(j: Job, now_ms: int) -> bool {
    now_ms >= j.last_run_ms + j.period_ms
}

impl Job {
    pub fn new(period_ms: u64, now_ms: u64) -> (j: Job)
        ensures
            j == (Job { period_ms, last_run_ms: now_ms }),
    {
        Job { period_ms, last_run_ms: now_ms }
    }

    /// Whether the job is due at clock reading `now_ms`. A reading behind
    /// the last run counts as not due.
    pub fn is_pending(&self, now_ms: u64) -> (r: bool)
        ensures
            r == spec_pending(*self, now_ms as int),
    {
        now_ms >= self.last_run_ms && now_ms - self.last_run_ms >= self.period_ms
    }

    /// Re-arms the job: records `now_ms` as its last run.
    pub fn execute(&mut self, now_ms: u64)
        ensures
            *final(self) == (Job { last_run_ms: now_ms, ..*old(self) }),
    {
        self.last_run_ms = now_ms;
    }
}

pub struct Clockwork {
    pub jobs: Vec<Job>,
}

impl Clockwork {
    pub fn new() -> (c: Clockwork)
        ensures
            c.jobs@.len() == 0,
    {
        Clockwork { jobs: Vec::new() }
    }

    /// Registers a job with the given cadence, first due one full period
    /// after `now_ms`, and hands back its stable index.
    pub fn every(&mut self, period_ms: u64, now_ms: u64) -> (idx: usize)
        ensures
            final(self).jobs@ == old(self).jobs@.push(Job { period_ms, last_run_ms: now_ms }),
            idx == old(self).jobs@.len(),
    {
        let idx = self.jobs.len();
        self.jobs.push(Job::new(period_ms, now_ms));
        idx
    }

    /// One sweep at clock reading `now_ms`: re-arms every due job and
    /// returns the indices of the jobs to run, in registration order,
    /// each at most once. Jobs that are not due are untouched.
    pub fn run_pending(&mut self, now_ms: u64) -> (due: Vec<usize>)
        ensures
            final(self).jobs@.len() == old(self).jobs@.len(),
            forall|i: int|
                0 <= i < old(self).jobs@.len() ==> final(self).jobs@[i] == (if spec_pending(
                    old(self).jobs@[i],
                    now_ms as int,
                ) {
                    Job { last_run_ms: now_ms, ..old(self).jobs@[i] }
                } else {
                    old(self).jobs@[i]
                }),
            forall|k: int|
                0 <= k < due@.len() ==> #[trigger] due@[k] < old(self).jobs@.len() && spec_pending(
                    old(self).jobs@[due@[k] as int],
                    now_ms as int,
                ),
            forall|i: int|
                0 <= i < old(self).jobs@.len() && spec_pending(old(self).jobs@[i], now_ms as int)
                    ==> due@.contains(i as usize),
            forall|k1: int, k2: int| 0 <= k1 < k2 < due@.len() ==> due@[k1] < due@[k2],
    {
        let ghost jobs0 = self.jobs@;
        let mut due: Vec<usize> = Vec::new();
        let mut i: usize = 0;
        while i < self.jobs.len()
            invariant
                0 <= i <= jobs0.len(),
                self.jobs@.len() == jobs0.len(),
                jobs0 == old(self).jobs@,
                forall|j: int| i <= j < jobs0.len() ==> self.jobs@[j] == jobs0[j],
                forall|j: int|
                    0 <= j < i ==> self.jobs@[j] == (if spec_pending(jobs0[j], now_ms as int) {
                        Job { last_run_ms: now_ms, ..jobs0[j] }
                    } else {
                        jobs0[j]
                    }),
                forall|k: int|
                    0 <= k < due@.len() ==> #[trigger] due@[k] < i && spec_pending(
                        jobs0[due@[k] as int],
                        now_ms as int,
                    ),
                forall|j: int|
                    0 <= j < i && spec_pending(jobs0[j], now_ms as int) ==> due@.contains(
                        j as usize,
                    ),
                forall|k1: int, k2: int| 0 <= k1 < k2 < due@.len() ==> due@[k1] < due@[k2],
            decreases jobs0.len() - i,
        {
            let ghost due_pre = due@;
            let pending = self.jobs[i].is_pending(now_ms);
            if pending {
                let mut j = self.jobs[i];
                j.execute(now_ms);
                self.jobs.set(i, j);
                due.push(i);
            }
            proof {
                if pending {
                    assert(due@ == due_pre.push(i as usize));
                    assert forall|j: int|
                        0 <= j < i + 1 && spec_pending(jobs0[j], now_ms as int) implies due@.contains(
                        j as usize,
                    ) by {
                        if j < i {
                            let k = choose|k: int|
                                0 <= k < due_pre.len() && due_pre[k] == j as usize;
                            assert(due@[k] == j as usize);
                        } else {
                            assert(due@[due@.len() - 1] == i as usize);
                        }
                    }
                }
            }
            i += 1;
        }
        due
    }
}

} // verus!
