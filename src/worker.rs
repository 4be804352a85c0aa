//! The decisions of one worker: count each submission's outcome and pace
//! the next attempt after a failure.

use vstd::prelude::*;

verus! {

/// Pause after a failed submission, in milliseconds.
pub const BACKOFF_MS: u64 = 200;

/// What a worker does after recording an outcome.
#[derive(Clone, Copy, Debug, PartialEq, Eq, Structural)]
pub enum WorkerAction {
    /// Start the next iteration at once.
    Continue,
    /// Pause for the given number of milliseconds, then start the next iteration.
    Backoff(u64),
}

/// The counters of one worker.
#[derive(Clone, Copy, Debug, PartialEq, Eq, Structural)]
pub struct WorkerState {
    pub id: u64,
    pub success_count: u64,
    pub error_count: u64,
}

/// The state after one submission whose outcome was `succeeded`.
pub open spec fn record_spec(s: WorkerState, succeeded: bool) -> WorkerState {
    if succeeded {
        WorkerState { success_count: (s.success_count + 1) as u64, ..s }
    } else {
        WorkerState { error_count: (s.error_count + 1) as u64, ..s }
    }
}

/// The action that follows a submission whose outcome was `succeeded`.
pub open spec fn action_spec(succeeded: bool) -> WorkerAction {
    if succeeded {
        WorkerAction::Continue
    } else {
        WorkerAction::Backoff(BACKOFF_MS)
    }
}

/// The state after a run of submissions with the given outcomes, in order.
pub open spec fn replay(s: WorkerState, outcomes: Seq<bool>) -> WorkerState
    decreases outcomes.len(),
{
    if outcomes.len() == 0 {
        s
    } else {
        replay(record_spec(s, outcomes[0]), outcomes.drop_first())
    }
}

/// The number of `true` entries in `outcomes`.
pub open spec fn count_true(outcomes: Seq<bool>) -> nat
    decreases outcomes.len(),
{
    if outcomes.len() == 0 {
        0
    } else {
        (if outcomes[0] { 1nat } else { 0nat }) + count_true(outcomes.drop_first())
    }
}

impl WorkerState {
    /// The number of iterations recorded so far.
    pub open spec fn iterations_spec(&self) -> int {
        self.success_count + self.error_count
    }

    /// A worker with the given identifier that has recorded nothing yet.
    pub fn new(id: u64) -> (r: WorkerState)
        ensures
            r.id == id,
            r.success_count == 0,
            r.error_count == 0,
    {
        WorkerState { id, success_count: 0, error_count: 0 }
    }

    /// The number of iterations recorded so far.
    pub fn iterations(&self) -> (r: u64)
        requires
            self.iterations_spec() <= u64::MAX,
        ensures
            r == self.iterations_spec(),
    {
        self.success_count + self.error_count
    }

    /// Whether one more outcome can be recorded without a counter overflowing.
    pub fn can_record(&self) -> (r: bool)
        ensures
            r == (self.iterations_spec() < u64::MAX),
    {
        self.success_count < u64::MAX && self.error_count < u64::MAX - self.success_count
    }

    /// Records the outcome of one submission and says what to do next: a
    /// success moves on at once, a failure pauses for the backoff first.
    pub fn record(&mut self, succeeded: bool) -> (action: WorkerAction)
        requires
            old(self).iterations_spec() < u64::MAX,
        ensures
            *final(self) == record_spec(*old(self), succeeded),
            action == action_spec(succeeded),
            final(self).iterations_spec() == old(self).iterations_spec() + 1,
    {
        if succeeded {
            self.success_count = self.success_count + 1;
            WorkerAction::Continue
        } else {
            self.error_count = self.error_count + 1;
            WorkerAction::Backoff(BACKOFF_MS)
        }
    }
}

/// Whether a worker or the monitor starts another iteration: exactly when no
/// cancellation has been requested.
pub fn keep_running(cancelled: bool) -> (r: bool)
    ensures
        r == !cancelled,
{
    !cancelled
}

/// Counter completeness: after any run of iterations, the successes and
/// errors recorded add up to the number of iterations, and the successes are
/// exactly the iterations whose submission succeeded.
pub proof fn lemma_counter_completeness(s: WorkerState, outcomes: Seq<bool>)
    requires
        s.iterations_spec() + outcomes.len() <= u64::MAX,
    ensures
        replay(s, outcomes).iterations_spec() == s.iterations_spec() + outcomes.len(),
        replay(s, outcomes).success_count == s.success_count + count_true(outcomes),
        replay(s, outcomes).id == s.id,
    decreases outcomes.len(),
{
    if outcomes.len() > 0 {
        lemma_counter_completeness(record_spec(s, outcomes[0]), outcomes.drop_first());
    }
}

} // verus!
