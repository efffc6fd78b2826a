//! Decisions of the worker pool: how many workers, the shared job queue with
//! its crash flag, and each worker's count of consecutive session failures.
//! The caller runs the workers, opens the tabs and moves the outcomes.
use vstd::prelude::*;

use crate::job::CaptureJob;
use crate::timing::CaptureTimings;

verus! {

/// Consecutive session-creation failures after which the browser counts as dead.
pub const MAX_SESSION_FAILURES: u32 = 3;

/// Per-capture timeout, in seconds.
pub const CAPTURE_TIMEOUT_SECS: u64 = 30;

/// Worker count used when none is configured.
pub const DEFAULT_PARALLEL: usize = 4;

/// Per-snapshot capture outcome.
pub enum CaptureOutcome {
    /// The PNG bytes and the stage timings.
    Captured(Vec<u8>, CaptureTimings),
    /// Why the capture failed.
    Failed(String),
}

/// The message of a job drained after the browser died.
pub open spec fn crashed_text() -> Seq<char> {
    "Chrome process crashed"@
}

/// The message of a capture that hit the per-capture timeout.
pub open spec fn timed_out_text() -> Seq<char> {
    "Capture timed out after 30s"@
}

/// The outcome of a job drained after the browser died.
pub fn crashed_outcome() -> (r: CaptureOutcome)
    ensures
        r matches CaptureOutcome::Failed(m) && m@ == crashed_text(),
{
    CaptureOutcome::Failed(String::from_str("Chrome process crashed"))
}

/// The outcome of a capture that hit the per-capture timeout.
pub fn timed_out_outcome() -> (r: CaptureOutcome)
    ensures
        r matches CaptureOutcome::Failed(m) && m@ == timed_out_text(),
{
    CaptureOutcome::Failed(String::from_str("Capture timed out after 30s"))
}

/// The outcome of a job whose tab could not be opened.
pub fn session_failed_outcome(detail: &str) -> (r: CaptureOutcome)
    ensures
        r matches CaptureOutcome::Failed(m) && m@ == "Session creation failed: "@ + detail@,
{
    let mut m = String::from_str("Session creation failed: ");
    m.append(detail);
    CaptureOutcome::Failed(m)
}

/// Number of workers: `min(job_count, max(parallel, 1))`.
pub fn worker_count(job_count: usize, parallel: usize) -> (r: usize)
    ensures
        r == if job_count <= (if parallel >= 1 { parallel } else { 1 }) {
            job_count
        } else {
            if parallel >= 1 {
                parallel
            } else {
                1
            }
        },
{
    let p = if parallel >= 1 { parallel } else { 1 };
    if job_count <= p {
        job_count
    } else {
        p
    }
}

/// Capacity of the outcome channel: twice the worker bound, `max(parallel, 1) * 2`.
pub fn channel_capacity(parallel: usize) -> (r: usize)
    requires
        parallel <= usize::MAX / 2,
    ensures
        r == 2 * (if parallel >= 1 { parallel } else { 1 }),
{
    let p = if parallel >= 1 { parallel } else { 1 };
    p * 2
}

/// What a worker does next.
pub enum Step {
    /// Capture this job in a fresh tab.
    Capture(CaptureJob),
    /// The browser is dead: report this job as crashed without capturing it.
    Crashed(CaptureJob),
    /// No job is left: the worker exits.
    Exit,
}

/// The state the workers share: the remaining jobs, taken from the end, and
/// the one-way flag that the browser died.
pub struct JobQueue {
    jobs: Vec<CaptureJob>,
    chrome_dead: bool,
    taken: usize,
    delivered: usize,
    total: Ghost<nat>,
}

impl JobQueue {
    /// Every job is either still queued or was taken, and no more outcomes
    /// were delivered than jobs taken.
    pub closed spec fn wf(&self) -> bool {
        &&& self.taken + self.jobs@.len() == self.total@
        &&& self.delivered <= self.taken
        &&& self.total@ <= usize::MAX
    }

    /// The number of jobs the run started with.
    pub closed spec fn total_jobs(&self) -> nat {
        self.total@
    }

    /// The jobs still queued.
    pub closed spec fn remaining(&self) -> Seq<CaptureJob> {
        self.jobs@
    }

    /// The browser was declared dead.
    pub closed spec fn dead(&self) -> bool {
        self.chrome_dead
    }

    /// Jobs handed out so far.
    pub closed spec fn taken_count(&self) -> nat {
        self.taken as nat
    }

    /// Outcomes delivered so far.
    pub closed spec fn delivered_count(&self) -> nat {
        self.delivered as nat
    }

    /// A queue holding `jobs`.
    pub fn new(jobs: Vec<CaptureJob>) -> (r: JobQueue)
        ensures
            r.wf(),
            r.remaining() == jobs@,
            r.total_jobs() == jobs@.len(),
            !r.dead(),
            r.taken_count() == 0,
            r.delivered_count() == 0,
    {
        let ghost n = jobs@.len();
        assert(jobs@.len() <= usize::MAX) by {
            assert(jobs.len() as nat == jobs@.len());
        }
        JobQueue {
            jobs,
            chrome_dead: false,
            taken: 0,
            delivered: 0,
            total: Ghost(n),
        }
    }

    /// Whether the browser was declared dead.
    pub fn is_dead(&self) -> (r: bool)
        ensures
            r == self.dead(),
    {
        self.chrome_dead
    }

    /// Number of jobs still queued.
    pub fn len(&self) -> (r: usize)
        ensures
            r == self.remaining().len(),
    {
        self.jobs.len()
    }

    /// Declare the browser dead; the flag never goes back.
    pub fn mark_dead(&mut self)
        requires
            old(self).wf(),
        ensures
            final(self).wf(),
            final(self).dead(),
            final(self).remaining() == old(self).remaining(),
            final(self).total_jobs() == old(self).total_jobs(),
            final(self).taken_count() == old(self).taken_count(),
            final(self).delivered_count() == old(self).delivered_count(),
    {
        self.chrome_dead = true;
    }

    /// The next step of a worker: the last queued job, to capture while the
    /// browser lives and to report as crashed once it is dead; `Exit` when
    /// the queue is empty.
    pub fn next_step(&mut self) -> (r: Step)
        requires
            old(self).wf(),
        ensures
            final(self).wf(),
            final(self).dead() == old(self).dead(),
            final(self).total_jobs() == old(self).total_jobs(),
            final(self).delivered_count() == old(self).delivered_count(),
            old(self).remaining().len() == 0 ==> r is Exit && final(self).remaining() == old(self).remaining()
                && final(self).taken_count() == old(self).taken_count(),
            old(self).remaining().len() > 0 ==> final(self).remaining() == old(self).remaining().drop_last()
                && final(self).taken_count() == old(self).taken_count() + 1 && if old(self).dead() {
                r matches Step::Crashed(j) && j == old(self).remaining().last()
            } else {
                r matches Step::Capture(j) && j == old(self).remaining().last()
            },
    {
        match self.jobs.pop() {
            None => Step::Exit,
            Some(job) => {
                self.taken = self.taken + 1;
                if self.chrome_dead {
                    Step::Crashed(job)
                } else {
                    Step::Capture(job)
                }
            },
        }
    }

    /// Deliver the outcome of a taken job. A capture that finishes after the
    /// browser was declared dead is reported as crashed: no captured outcome
    /// leaves the queue once the flag is set.
    pub fn deliver(&mut self, outcome: CaptureOutcome) -> (r: CaptureOutcome)
        requires
            old(self).wf(),
            old(self).delivered_count() < old(self).taken_count(),
        ensures
            final(self).wf(),
            final(self).dead() == old(self).dead(),
            final(self).remaining() == old(self).remaining(),
            final(self).total_jobs() == old(self).total_jobs(),
            final(self).taken_count() == old(self).taken_count(),
            final(self).delivered_count() == old(self).delivered_count() + 1,
            old(self).dead() ==> r is Failed,
            !old(self).dead() ==> r == outcome,
    {
        self.delivered = self.delivered + 1;
        if self.chrome_dead {
            match outcome {
                CaptureOutcome::Captured(_, _) => crashed_outcome(),
                CaptureOutcome::Failed(m) => CaptureOutcome::Failed(m),
            }
        } else {
            outcome
        }
    }
}

impl JobQueue {
    /// A worker could not open a tab for the job it took: the failure is
    /// delivered as that job's outcome, and at the worker's third failure in a
    /// row the browser is declared dead. Returns the outcome and whether the
    /// browser was declared dead now.
    pub fn session_failed(&mut self, worker: &mut WorkerState, detail: &str) -> (r: (CaptureOutcome, bool))
        requires
            old(self).wf(),
            old(self).delivered_count() < old(self).taken_count(),
            old(worker).consecutive_session_failures < MAX_SESSION_FAILURES,
        ensures
            final(self).wf(),
            final(self).remaining() == old(self).remaining(),
            final(self).total_jobs() == old(self).total_jobs(),
            final(self).taken_count() == old(self).taken_count(),
            final(self).delivered_count() == old(self).delivered_count() + 1,
            final(worker).consecutive_session_failures == old(worker).consecutive_session_failures + 1,
            r.1 == (final(worker).consecutive_session_failures >= MAX_SESSION_FAILURES),
            final(self).dead() == (old(self).dead() || r.1),
            r.0 matches CaptureOutcome::Failed(m) && (!old(self).dead() ==> m@
                == "Session creation failed: "@ + detail@),
    {
        let escalate = worker.session_failed();
        let outcome = self.deliver(session_failed_outcome(detail));
        if escalate {
            self.mark_dead();
        }
        (outcome, escalate)
    }
}

/// Each worker's own count of consecutive session-creation failures.
pub struct WorkerState {
    pub consecutive_session_failures: u32,
}

impl WorkerState {
    /// A worker that has not failed yet.
    pub fn new() -> (r: WorkerState)
        ensures
            r.consecutive_session_failures == 0,
    {
        WorkerState { consecutive_session_failures: 0 }
    }

    /// A session opened: the count starts again.
    pub fn session_opened(&mut self)
        ensures
            final(self).consecutive_session_failures == 0,
    {
        self.consecutive_session_failures = 0;
    }

    /// A session failed to open. Returns whether the browser must now be
    /// declared dead: the third failure in a row.
    pub fn session_failed(&mut self) -> (escalate: bool)
        requires
            old(self).consecutive_session_failures < MAX_SESSION_FAILURES,
        ensures
            final(self).consecutive_session_failures == old(self).consecutive_session_failures + 1,
            escalate == (final(self).consecutive_session_failures >= MAX_SESSION_FAILURES),
    {
        self.consecutive_session_failures = self.consecutive_session_failures + 1;
        self.consecutive_session_failures >= MAX_SESSION_FAILURES
    }
}

/// Once the queue is empty and every taken job has its outcome, exactly one
/// outcome was delivered per job of the run, whatever the worker count.
pub proof fn lemma_one_outcome_per_job(q: JobQueue)
    requires
        q.wf(),
        q.remaining().len() == 0,
        q.delivered_count() == q.taken_count(),
    ensures
        q.delivered_count() == q.total_jobs(),
{
}

} // verus!
