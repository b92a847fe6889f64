use crate::job::JobOutcome;
use crate::limiter::Limiter;
use vstd::prelude::*;

verus! {

/// Aggregate result of a batch run: how many jobs succeeded and how many
/// exhausted their retries.
#[derive(Clone, Copy, PartialEq, Eq, Structural, Debug)]
pub struct BatchSummary {
    /// Jobs that ended in success.
    pub ok_count: usize,
    /// Jobs that failed for good.
    pub failed_count: usize,
}

/// How many outcomes in the sequence are successes.
pub open spec fn count_ok(s: Seq<JobOutcome>) -> int
    decreases s.len(),
{
    if s.len() == 0 {
        0
    } else {
        count_ok(s.drop_last()) + if s.last().success {
            1int
        } else {
            0int
        }
    }
}

/// Folds a batch's outcomes into its summary: one success or one failure is
/// counted per job, so the two counts always add up to the number of jobs
/// submitted, for any batch size including zero and one.
pub fn summarize(outcomes: &Vec<JobOutcome>) -> (r: BatchSummary)
    ensures
        r.ok_count == count_ok(outcomes@),
        r.failed_count == outcomes@.len() - count_ok(outcomes@),
        r.ok_count + r.failed_count == outcomes@.len(),
{
    let n = outcomes.len();
    let mut ok: usize = 0;
    let mut failed: usize = 0;
    let mut i: usize = 0;
    while i < n
        invariant
            i <= n,
            n == outcomes@.len(),
            ok == count_ok(outcomes@.subrange(0, i as int)),
            ok + failed == i,
        decreases n - i,
    {
        if outcomes[i].success {
            ok = ok + 1;
        } else {
            failed = failed + 1;
        }
        proof {
            assert(outcomes@.subrange(0, i + 1 as int).drop_last() =~= outcomes@.subrange(
                0,
                i as int,
            ));
        }
        i = i + 1;
    }
    proof {
        assert(outcomes@.subrange(0, n as int) =~= outcomes@);
    }
    BatchSummary { ok_count: ok, failed_count: failed }
}

/// Whether a finished batch is reported as failed: exactly when at least one
/// job ultimately failed. All jobs still ran to completion.
pub fn batch_failed(summary: &BatchSummary) -> (r: bool)
    ensures
        r == (summary.failed_count > 0),
{
    summary.failed_count > 0
}

/// The batch orchestrator's bookkeeping.
///
/// The driver spawns the actual transfers; the orchestrator decides
/// admission through the limiter and keeps the counts. Jobs may complete in
/// any order; a failing job never aborts the batch, it is merely counted.
pub struct Orchestrator {
    total: usize,
    started: usize,
    completed: usize,
    limiter: Limiter,
    summary: BatchSummary,
}

impl Orchestrator {
    /// How many jobs the batch holds.
    pub closed spec fn total(&self) -> usize {
        self.total
    }

    /// How many jobs have been admitted so far.
    pub closed spec fn started(&self) -> usize {
        self.started
    }

    /// How many jobs have reached a terminal outcome.
    pub closed spec fn completed(&self) -> usize {
        self.completed
    }

    /// The configured concurrency bound.
    pub closed spec fn concurrency(&self) -> usize {
        self.limiter.bound()
    }

    /// Successes recorded so far.
    pub closed spec fn ok_count(&self) -> usize {
        self.summary.ok_count
    }

    /// Terminal failures recorded so far.
    pub closed spec fn failed_count(&self) -> usize {
        self.summary.failed_count
    }

    /// Jobs admitted but not yet terminal.
    pub open spec fn in_flight(&self) -> int {
        self.started() - self.completed()
    }

    /// Validity: admissions never outrun the batch, completions never outrun
    /// admissions, the limiter holds exactly one unit per in-flight job, and
    /// every completed job is counted exactly once.
    pub closed spec fn wf(&self) -> bool {
        &&& self.limiter.wf()
        &&& self.started <= self.total
        &&& self.completed <= self.started
        &&& self.limiter.active() == self.started - self.completed
        &&& self.summary.ok_count + self.summary.failed_count == self.completed
    }

    /// A fresh orchestrator for `total` jobs under the given bound.
    pub fn new(total: usize, concurrency: usize) -> (r: Orchestrator)
        ensures
            r.wf(),
            r.total() == total,
            r.concurrency() == concurrency,
            r.started() == 0,
            r.completed() == 0,
            r.ok_count() == 0,
            r.failed_count() == 0,
    {
        Orchestrator {
            total,
            started: 0,
            completed: 0,
            limiter: Limiter::new(concurrency),
            summary: BatchSummary { ok_count: 0, failed_count: 0 },
        }
    }

    /// Tries to admit the next job: succeeds exactly while jobs remain and
    /// the limiter has a free unit. On admission the job counts as in
    /// flight; the in-flight count never exceeds the bound.
    pub fn try_admit(&mut self) -> (admitted: bool)
        requires
            old(self).wf(),
        ensures
            final(self).wf(),
            final(self).total() == old(self).total(),
            final(self).concurrency() == old(self).concurrency(),
            final(self).completed() == old(self).completed(),
            final(self).ok_count() == old(self).ok_count(),
            final(self).failed_count() == old(self).failed_count(),
            admitted == (old(self).started() < old(self).total() && old(self).in_flight()
                < old(self).concurrency()),
            admitted ==> final(self).started() == old(self).started() + 1,
            !admitted ==> final(self).started() == old(self).started(),
            final(self).in_flight() <= final(self).concurrency(),
    {
        if self.started < self.total {
            if self.limiter.try_acquire() {
                self.started = self.started + 1;
                true
            } else {
                false
            }
        } else {
            false
        }
    }

    /// One in-flight job reached its terminal outcome: its limiter unit is
    /// given back unconditionally and the outcome is counted, as a success
    /// or as a failure, exactly once.
    pub fn complete(&mut self, success: bool)
        requires
            old(self).wf(),
            old(self).in_flight() >= 1,
        ensures
            final(self).wf(),
            final(self).total() == old(self).total(),
            final(self).concurrency() == old(self).concurrency(),
            final(self).started() == old(self).started(),
            final(self).completed() == old(self).completed() + 1,
            final(self).in_flight() == old(self).in_flight() - 1,
            success ==> final(self).ok_count() == old(self).ok_count() + 1
                && final(self).failed_count() == old(self).failed_count(),
            !success ==> final(self).failed_count() == old(self).failed_count() + 1
                && final(self).ok_count() == old(self).ok_count(),
    {
        self.limiter.release();
        self.completed = self.completed + 1;
        if success {
            self.summary.ok_count = self.summary.ok_count + 1;
        } else {
            self.summary.failed_count = self.summary.failed_count + 1;
        }
    }

    /// Whether every job of the batch has completed.
    pub fn all_done(&self) -> (r: bool)
        requires
            self.wf(),
        ensures
            r == (self.completed() == self.total()),
    {
        self.completed == self.total
    }

    /// Jobs in flight right now.
    pub fn in_flight_now(&self) -> (r: usize)
        requires
            self.wf(),
        ensures
            r == self.in_flight(),
    {
        self.started - self.completed
    }

    /// The batch's summary, available once every job has completed. The two
    /// counts add up to the number of jobs submitted.
    pub fn summary(&self) -> (r: BatchSummary)
        requires
            self.wf(),
            self.completed() == self.total(),
        ensures
            r.ok_count == self.ok_count(),
            r.failed_count == self.failed_count(),
            r.ok_count + r.failed_count == self.total(),
    {
        self.summary
    }
}

/// Bounded concurrency: at no point do the jobs in flight exceed the
/// configured concurrency bound.
pub proof fn lemma_in_flight_bounded(o: &Orchestrator)
    requires
        o.wf(),
    ensures
        0 <= o.in_flight() <= o.concurrency(),
{
}

/// Conservation of outcomes: every admitted job is either still in flight or
/// counted exactly once, so once a batch drains, the success and failure
/// counts add up to the jobs submitted.
pub proof fn lemma_counts_conserved(o: &Orchestrator)
    requires
        o.wf(),
    ensures
        o.ok_count() + o.failed_count() + o.in_flight() == o.started(),
{
}

} // verus!
