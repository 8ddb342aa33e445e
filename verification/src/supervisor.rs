//! The task supervisor: the decisions of the retry loop, as a state machine.
//!
//! The host owns the loop. It invokes the operation factory, awaits the
//! attempt, and hands the outcome to `Supervisor::on_outcome`, which answers
//! with the next `Action`. A retry lowers the health signal before the action
//! is returned, so that write comes before the warning and before the sleep.
//! The supervisor never raises the signal.

use crate::health::HealthSignal;
use crate::policy::RetryPolicy;
use vstd::prelude::*;

verus! {

/// Where a supervised task stands.
#[derive(Clone, Copy, Debug, PartialEq, Eq, Structural)]
pub enum Phase {
    /// Attempts are still made.
    Running,
    /// An attempt returned normally. This ends supervision.
    Succeeded,
    /// A failure came when no retry was left.
    Exhausted,
    /// The owner cancelled the task.
    Cancelled,
}

/// What the host does after an attempt.
#[derive(Debug, PartialEq, Eq)]
pub enum Action<E> {
    /// Supervision ends without an error.
    Finish,
    /// Warn with `attempt` and `error`, sleep for `delay` nanoseconds, then
    /// make the next attempt.
    Retry {
        /// The retries made before the failure, from zero.
        attempt: u32,
        /// The backoff delay, in nanoseconds.
        delay: u128,
        /// The failure that is retried.
        error: E,
    },
    /// Supervision ends with this error, which goes to the owner of the task.
    Fail(E),
}

/// The state of one supervised task.
#[derive(Clone, Copy, Debug, PartialEq, Eq, Structural)]
pub struct Supervisor {
    /// The policy that the task runs under.
    pub policy: RetryPolicy,
    /// The retries made so far.
    pub attempt: u32,
    /// Where the task stands.
    pub phase: Phase,
}

impl Supervisor {
    /// The invariant: a valid policy, and no more retries than it grants.
    pub open spec fn wf(&self) -> bool {
        &&& self.policy.wf()
        &&& self.attempt <= self.policy.max_attempts
    }

    /// The state before the first attempt.
    pub open spec fn initial(policy: RetryPolicy) -> Supervisor {
        Supervisor { policy, attempt: 0, phase: Phase::Running }
    }

    /// Whether an attempt with this outcome is answered with a retry.
    pub open spec fn retries(&self, failed: bool) -> bool {
        self.phase == Phase::Running && failed && self.attempt < self.policy.max_attempts
    }

    /// The state after an attempt with this outcome.
    pub open spec fn after(&self, failed: bool) -> Supervisor {
        if self.phase != Phase::Running {
            *self
        } else if !failed {
            Supervisor { phase: Phase::Succeeded, ..*self }
        } else if self.attempt < self.policy.max_attempts {
            Supervisor { attempt: (self.attempt + 1) as u32, ..*self }
        } else {
            Supervisor { phase: Phase::Exhausted, ..*self }
        }
    }

    /// The state after the owner has cancelled the task: a running task is
    /// cancelled, and a task that has ended stays as it ended.
    pub open spec fn cancelled(&self) -> Supervisor {
        if self.phase == Phase::Running {
            Supervisor { phase: Phase::Cancelled, ..*self }
        } else {
            *self
        }
    }

    /// The action that answers an attempt with this outcome.
    pub open spec fn action_for<E>(&self, outcome: Result<(), E>) -> Action<E> {
        match outcome {
            Ok(_) => Action::Finish,
            Err(error) => if self.retries(true) {
                Action::Retry {
                    attempt: self.attempt,
                    delay: self.policy.delay_at(self.attempt as nat) as u128,
                    error,
                }
            } else {
                Action::Fail(error)
            },
        }
    }

    /// Starts the supervision of one task.
    pub fn start(policy: RetryPolicy) -> (s: Supervisor)
        requires
            policy.wf(),
        ensures
            s == Self::initial(policy),
            s.wf(),
    {
        Supervisor { policy, attempt: 0, phase: Phase::Running }
    }

    /// Whether the invariant holds of this value.
    pub fn is_valid(&self) -> (b: bool)
        ensures
            b == self.wf(),
    {
        self.policy.is_valid() && self.attempt <= self.policy.max_attempts
    }

    /// Whether the host may make another attempt.
    pub fn is_running(&self) -> (b: bool)
        ensures
            b == (self.phase == Phase::Running),
    {
        self.phase == Phase::Running
    }

    /// Cancels the task: a running task stops, and no attempt follows. A task
    /// that has ended stays as it ended.
    pub fn cancel(&mut self)
        ensures
            *final(self) == old(self).cancelled(),
            !final(self).retries(true),
    {
        if self.phase == Phase::Running {
            self.phase = Phase::Cancelled;
        }
    }

    /// Takes the outcome of one attempt and decides what follows.
    ///
    /// A normal return ends supervision. A failure is retried while retries
    /// are left: the health signal is lowered and the action carries the
    /// retry count and the backoff delay. A failure with no retry left ends
    /// supervision with that error. A task that has ended is never retried.
    pub fn on_outcome<E>(&mut self, health: &mut HealthSignal, outcome: Result<(), E>) -> (action:
        Action<E>)
        requires
            old(self).wf(),
        ensures
            final(self).wf(),
            *final(self) == old(self).after(outcome is Err),
            action == old(self).action_for(outcome),
            final(health).healthy == (old(health).healthy && !old(self).retries(outcome is Err)),
    {
        let running: bool = self.phase == Phase::Running;
        match outcome {
            Ok(_) => {
                if running {
                    self.phase = Phase::Succeeded;
                }
                Action::Finish
            },
            Err(error) => {
                if running && self.attempt < self.policy.max_attempts {
                    let attempt: u32 = self.attempt;
                    let delay: u128 = self.policy.delay(attempt);
                    health.mark_unhealthy();
                    self.attempt = attempt + 1;
                    Action::Retry { attempt, delay, error }
                } else {
                    if running {
                        self.phase = Phase::Exhausted;
                    }
                    Action::Fail(error)
                }
            },
        }
    }
}

} // verus!
