use crate::errors::TransferError;
use crate::job::JobOutcome;
use vstd::pervasive::unreached;
use vstd::prelude::*;

verus! {

/// The backoff delay, in milliseconds, slept after the given attempt number
/// has failed. It grows strictly with the attempt number, so repeated
/// transient failures against a struggling endpoint are spaced further and
/// further apart.
pub open spec fn spec_backoff_ms(attempt: int) -> int {
    200 * attempt
}

/// Computes the backoff delay after a failed attempt.
pub fn backoff_ms(attempt: u64) -> (r: u64)
    requires
        200 * attempt <= u64::MAX,
    ensures
        r == spec_backoff_ms(attempt as int),
{
    200 * attempt
}

/// Backoff strictly increases with the attempt number, so of two successive
/// delays the later one is always the longer.
pub proof fn lemma_backoff_strictly_increases(a: int, b: int)
    requires
        0 < a < b,
    ensures
        spec_backoff_ms(a) < spec_backoff_ms(b),
{
}

/// What the retry controller asks its driver to do after a failed attempt.
#[derive(Clone, Copy, PartialEq, Eq, Structural, Debug)]
pub enum RetryAction {
    /// Sleep for the given delay, then run the next attempt.
    Retry { delay_ms: u64 },
    /// Retries are exhausted; the job has failed for good.
    GiveUp,
}

/// The retry controller's state for one job.
#[derive(Clone, Copy, PartialEq, Eq, Structural, Debug)]
pub enum RetryState {
    /// Attempt number `attempt` (1-based) is the one now due to run.
    Attempting { attempt: u64 },
    /// Some attempt succeeded; terminal.
    Succeeded,
    /// Every allowed attempt failed; terminal.
    Failed,
}

/// The per-job retry state machine.
///
/// Starting at `Attempting { attempt: 1 }`, the driver runs one transfer
/// attempt per `Attempting` state and reports its result. A success is
/// terminal at once. A failure either schedules the next attempt after a
/// strictly growing backoff, or, once `max_retries + 1` attempts have run,
/// ends the job as `Failed`. The decision looks only at the attempt count,
/// never at the error kind: every kind is equally retryable.
pub struct RetryController {
    max_retries: u32,
    state: RetryState,
    finished: u64,
    last_error: Option<TransferError>,
    history: Ghost<Seq<bool>>,
}

impl RetryController {
    /// The configured retry bound: at most `max_retries + 1` attempts run.
    pub closed spec fn max_retries(&self) -> u32 {
        self.max_retries
    }

    /// The current state.
    pub closed spec fn state(&self) -> RetryState {
        self.state
    }

    /// How many attempts have fully finished.
    pub closed spec fn attempts_finished(&self) -> u64 {
        self.finished
    }

    /// The error that ended the most recent failed attempt.
    pub closed spec fn last_error(&self) -> Option<TransferError> {
        self.last_error
    }

    /// The result of each finished attempt, in order: true for a success.
    pub closed spec fn history(&self) -> Seq<bool> {
        self.history@
    }

    /// The controller reached a terminal state.
    pub open spec fn is_terminal(&self) -> bool {
        self.state() is Succeeded || self.state() is Failed
    }

    /// Validity of the machine. In every state the history records one
    /// result per finished attempt; while attempting, every finished attempt
    /// has failed and the attempt number stays within the bound; a success
    /// is recorded as the last history entry; a terminal failure means every
    /// allowed attempt ran and failed.
    pub closed spec fn wf(&self) -> bool {
        &&& self.finished == self.history@.len()
        &&& match self.state {
            RetryState::Attempting { attempt } => {
                &&& attempt == self.finished + 1
                &&& 1 <= attempt <= self.max_retries + 1
                &&& (forall|i: int| 0 <= i < self.history@.len() ==> !self.history@[i])
                &&& (attempt > 1 <==> self.last_error is Some)
            },
            RetryState::Succeeded => {
                &&& 1 <= self.finished <= self.max_retries + 1
                &&& self.history@.len() >= 1
                &&& self.history@.last()
                &&& (forall|i: int| 0 <= i < self.history@.len() - 1 ==> !self.history@[i])
            },
            RetryState::Failed => {
                &&& self.finished == self.max_retries + 1
                &&& (forall|i: int| 0 <= i < self.history@.len() ==> !self.history@[i])
                &&& self.last_error is Some
            },
        }
    }

    /// A fresh controller, ready to run the first attempt.
    pub fn new(max_retries: u32) -> (r: RetryController)
        ensures
            r.wf(),
            r.max_retries() == max_retries,
            r.state() == (RetryState::Attempting { attempt: 1 }),
            r.attempts_finished() == 0,
            r.history() == Seq::<bool>::empty(),
    {
        RetryController {
            max_retries,
            state: RetryState::Attempting { attempt: 1 },
            finished: 0,
            last_error: None,
            history: Ghost(Seq::empty()),
        }
    }

    /// The current attempt finished successfully: terminal at once.
    pub fn record_success(&mut self)
        requires
            old(self).wf(),
            old(self).state() is Attempting,
        ensures
            final(self).wf(),
            final(self).state() is Succeeded,
            final(self).max_retries() == old(self).max_retries(),
            final(self).attempts_finished() == old(self).attempts_finished() + 1,
            final(self).history() == old(self).history().push(true),
    {
        self.finished = self.finished + 1;
        self.state = RetryState::Succeeded;
        self.history = Ghost(self.history@.push(true));
    }

    /// The current attempt failed with `err`. While attempts remain, the
    /// driver is told to sleep for the backoff of the attempt that just
    /// failed and run the next one; otherwise the job is terminally failed.
    pub fn record_failure(&mut self, err: TransferError) -> (action: RetryAction)
        requires
            old(self).wf(),
            old(self).state() is Attempting,
        ensures
            final(self).wf(),
            final(self).max_retries() == old(self).max_retries(),
            final(self).attempts_finished() == old(self).attempts_finished() + 1,
            final(self).history() == old(self).history().push(false),
            final(self).last_error() == Some(err),
            old(self).state()->attempt <= old(self).max_retries() ==> (
                action matches RetryAction::Retry { delay_ms }
                    && delay_ms == spec_backoff_ms(old(self).state()->attempt as int)
            ) && final(self).state() == (RetryState::Attempting {
                attempt: (old(self).state()->attempt + 1) as u64,
            }),
            old(self).state()->attempt > old(self).max_retries() ==> action is GiveUp
                && final(self).state() is Failed,
    {
        let attempt: u64 = match self.state {
            RetryState::Attempting { attempt } => attempt,
            _ => unreached(),
        };
        self.finished = self.finished + 1;
        self.last_error = Some(err);
        self.history = Ghost(self.history@.push(false));
        if attempt <= self.max_retries as u64 {
            let delay_ms = backoff_ms(attempt);
            self.state = RetryState::Attempting { attempt: attempt + 1 };
            RetryAction::Retry { delay_ms }
        } else {
            self.state = RetryState::Failed;
            RetryAction::GiveUp
        }
    }

    /// The terminal record for this job, handed to the orchestrator.
    /// A successful job reports no error; a failed one reports the error
    /// that ended its last attempt.
    pub fn outcome(&self, symbol: String) -> (r: JobOutcome)
        requires
            self.wf(),
            self.is_terminal(),
        ensures
            r.wf(),
            r.symbol == symbol,
            r.success == self.state() is Succeeded,
            r.attempts_used == self.attempts_finished(),
            self.state() is Failed ==> r.last_error == self.last_error(),
            r.success ==> r.last_error is None,
    {
        let success = matches!(self.state, RetryState::Succeeded);
        JobOutcome {
            symbol,
            success,
            attempts_used: self.finished,
            last_error: if success {
                None
            } else {
                self.last_error
            },
        }
    }
}

/// A terminal state tells the attempts' story exactly: a success records one
/// final successful attempt after nothing but failures, while a terminal
/// failure records `max_retries + 1` attempts, every one of them failed —
/// failure is reported explicitly, never mistaken for success.
pub proof fn lemma_terminal_history(c: &RetryController)
    requires
        c.wf(),
        c.is_terminal(),
    ensures
        c.attempts_finished() == c.history().len(),
        c.state() is Succeeded ==> c.history().len() >= 1 && c.history().last() && (forall|
            i: int,
        |
            0 <= i < c.history().len() - 1 ==> !c.history()[i]),
        c.state() is Failed ==> c.attempts_finished() == c.max_retries() + 1 && (forall|i: int|
            0 <= i < c.history().len() ==> !c.history()[i]),
{
}

/// Attempt counts are bounded: a job that reached a terminal state used
/// between 1 and `max_retries + 1` attempts, and used more than one only
/// because at least one earlier attempt failed.
pub proof fn lemma_attempts_bounded(c: &RetryController)
    requires
        c.wf(),
        c.is_terminal(),
    ensures
        1 <= c.attempts_finished() <= c.max_retries() + 1,
        c.attempts_finished() > 1 ==> exists|i: int|
            0 <= i < c.attempts_finished() && !c.history()[i],
{
    if c.attempts_finished() > 1 {
        assert(!c.history()[0]);
    }
}

} // verus!
