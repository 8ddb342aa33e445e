//! What a supervised task does over a whole run of attempts.
//!
//! A run is given by the outcomes of its attempts in order, `true` for a
//! failure. `Supervisor::run` says which attempts are made and which delays
//! are slept; the laws below are stated of it, and `replay` computes it.

use crate::health::HealthSignal;
use crate::policy::RetryPolicy;
use crate::supervisor::{Phase, Supervisor};
use vstd::prelude::*;

verus! {

/// What was observed of a run.
pub struct Trace {
    /// The state that the run ends in.
    pub end: Supervisor,
    /// How often the operation factory was invoked.
    pub invocations: nat,
    /// The delays slept, in order. Each goes with one lowering of the health
    /// signal and one warning.
    pub delays: Seq<nat>,
}

impl Trace {
    /// How often the health signal was lowered.
    pub open spec fn downgrades(&self) -> nat {
        self.delays.len()
    }
}

impl Supervisor {
    /// The run from this state over the given outcomes. Attempts are made
    /// while the task is running and outcomes are left.
    pub open spec fn run(self, outcomes: Seq<bool>) -> Trace
        decreases outcomes.len(),
    {
        if self.phase != Phase::Running || outcomes.len() == 0 {
            Trace { end: self, invocations: 0, delays: Seq::empty() }
        } else {
            let failed = outcomes[0];
            let rest = self.after(failed).run(outcomes.drop_first());
            Trace {
                end: rest.end,
                invocations: rest.invocations + 1,
                delays: if self.retries(failed) {
                    seq![self.policy.delay_at(self.attempt as nat)] + rest.delays
                } else {
                    rest.delays
                },
            }
        }
    }
}

/// A run as `replay` computes it.
#[derive(Debug, PartialEq, Eq)]
pub struct Report {
    /// The state that the run ends in.
    pub end: Supervisor,
    /// How often the operation factory was invoked.
    pub invocations: usize,
    /// The delays slept, in nanoseconds and in order.
    pub delays: Vec<u128>,
}

impl View for Report {
    type V = Trace;

    open spec fn view(&self) -> Trace {
        Trace {
            end: self.end,
            invocations: self.invocations as nat,
            delays: Seq::new(self.delays@.len(), |i: int| self.delays@[i] as nat),
        }
    }
}

/// Runs a task from `start` over scripted outcomes, `true` for a failure, as
/// a host would over real attempts: one call of `on_outcome` per attempt,
/// until the task has ended or the script is used up.
pub fn replay(start: Supervisor, health: &mut HealthSignal, outcomes: &Vec<bool>) -> (report: Report)
    requires
        start.wf(),
    ensures
        report@ == start.run(outcomes@),
        report.end.wf(),
        final(health).healthy == (old(health).healthy && report.delays@.len() == 0),
{
    let mut state: Supervisor = start;
    let mut invocations: usize = 0;
    let mut delays: Vec<u128> = Vec::new();
    let mut i: usize = 0;
    proof {
        assert(outcomes@.skip(0) =~= outcomes@);
        assert(Seq::new(delays@.len(), |j: int| delays@[j] as nat) + start.run(outcomes@).delays
            =~= start.run(outcomes@).delays);
    }
    while i < outcomes.len() && state.is_running()
        invariant
            i <= outcomes.len(),
            invocations == i,
            state.wf(),
            delays@.len() <= i,
            health.healthy == (old(health).healthy && delays@.len() == 0),
            start.run(outcomes@).end == state.run(outcomes@.skip(i as int)).end,
            start.run(outcomes@).invocations == invocations + state.run(
                outcomes@.skip(i as int),
            ).invocations,
            start.run(outcomes@).delays == Seq::new(delays@.len(), |j: int| delays@[j] as nat)
                + state.run(outcomes@.skip(i as int)).delays,
        decreases outcomes.len() - i,
    {
        let ghost before = state;
        let ghost slept = Seq::new(delays@.len(), |j: int| delays@[j] as nat);
        let ghost left = outcomes@.skip(i as int);
        let failed: bool = outcomes[i];
        let outcome: Result<(), ()> = if failed {
            Err(())
        } else {
            Ok(())
        };
        let action = state.on_outcome(health, outcome);
        match action {
            crate::supervisor::Action::Retry { attempt: _, delay, error: _ } => {
                delays.push(delay);
            },
            _ => {},
        }
        i = i + 1;
        invocations = invocations + 1;
        proof {
            assert(left[0] == failed);
            assert(left.drop_first() =~= outcomes@.skip(i as int));
            let now = Seq::new(delays@.len(), |j: int| delays@[j] as nat);
            let rest = state.run(outcomes@.skip(i as int));
            if before.retries(failed) {
                crate::policy::lemma_delay_bounded(before.policy, before.attempt as nat);
                assert(now =~= slept.push(before.policy.delay_at(before.attempt as nat)));
                assert(slept + (seq![before.policy.delay_at(before.attempt as nat)] + rest.delays)
                    =~= now + rest.delays);
            } else {
                assert(now =~= slept);
            }
        }
    }
    proof {
        assert(state.run(outcomes@.skip(i as int)).delays =~= Seq::<nat>::empty());
        let now = Seq::new(delays@.len(), |j: int| delays@[j] as nat);
        assert(now + Seq::<nat>::empty() =~= now);
    }
    Report { end: state, invocations, delays }
}

/// The outcomes of `k` failures followed by one success.
pub open spec fn failures_then_success(k: nat) -> Seq<bool> {
    Seq::new(k + 1, |i: int| i < k)
}

/// Whether every outcome is a failure.
pub open spec fn all_fail(outcomes: Seq<bool>) -> bool {
    forall|i: int| 0 <= i < outcomes.len() ==> outcomes[i]
}

/// A task that has ended makes no attempt, whatever the factory would return.
pub proof fn lemma_ended_makes_no_attempt(s: Supervisor, outcomes: Seq<bool>)
    requires
        s.phase != Phase::Running,
    ensures
        s.run(outcomes) == (Trace { end: s, invocations: 0, delays: Seq::empty() }),
{
}

/// A task that is cancelled while it waits between two attempts makes no
/// further attempt: whatever the factory would return, the run from the
/// cancelled state is empty, and so no delay is slept and the health signal
/// is not lowered again.
pub proof fn lemma_cancel_stops_attempts(s: Supervisor, outcomes: Seq<bool>)
    requires
        s.phase == Phase::Running,
    ensures
        s.cancelled().phase == Phase::Cancelled,
        s.cancelled().run(outcomes) == (Trace {
            end: s.cancelled(),
            invocations: 0,
            delays: Seq::empty(),
        }),
{
}

/// Over any run, retry number `i` waits the delay that the schedule gives for
/// the retries made before it, the retries stay within what the policy
/// grants, and at most one attempt more is made than retries were left. The
/// retry count never goes down and is never reset.
pub proof fn lemma_run_follows_schedule(s: Supervisor, outcomes: Seq<bool>)
    requires
        s.wf(),
    ensures
        s.run(outcomes).end.wf(),
        s.run(outcomes).end.policy == s.policy,
        s.run(outcomes).end.attempt == s.attempt + s.run(outcomes).delays.len(),
        s.run(outcomes).invocations <= outcomes.len(),
        s.run(outcomes).delays.len() <= s.run(outcomes).invocations <= s.run(outcomes).delays.len()
            + 1,
        forall|i: int|
            0 <= i < s.run(outcomes).delays.len() ==> #[trigger] s.run(outcomes).delays[i]
                == s.policy.delay_at((s.attempt + i) as nat),
    decreases outcomes.len(),
{
    if s.phase == Phase::Running && outcomes.len() > 0 {
        let failed = outcomes[0];
        let next = s.after(failed);
        let rest = next.run(outcomes.drop_first());
        lemma_run_follows_schedule(next, outcomes.drop_first());
        let t = s.run(outcomes);
        if s.retries(failed) {
            assert forall|i: int| 0 <= i < t.delays.len() implies #[trigger] t.delays[i]
                == s.policy.delay_at((s.attempt + i) as nat) by {
                if i > 0 {
                    assert(t.delays[i] == rest.delays[i - 1]);
                }
            }
        } else {
            lemma_ended_makes_no_attempt(next, outcomes.drop_first());
        }
    }
}

/// From a running state with `k` retries left or more, `k` failures and then a
/// success make `k + 1` attempts and `k` retries with the scheduled delays,
/// and end in success.
pub proof fn lemma_recovery_from(s: Supervisor, k: nat)
    requires
        s.wf(),
        s.phase == Phase::Running,
        s.attempt + k <= s.policy.max_attempts,
    ensures
        s.run(failures_then_success(k)).invocations == k + 1,
        s.run(failures_then_success(k)).delays.len() == k,
        forall|i: int|
            0 <= i < k ==> #[trigger] s.run(failures_then_success(k)).delays[i]
                == s.policy.delay_at((s.attempt + i) as nat),
        s.run(failures_then_success(k)).end == (Supervisor {
            phase: Phase::Succeeded,
            attempt: (s.attempt + k) as u32,
            ..s
        }),
    decreases k,
{
    let outcomes = failures_then_success(k);
    let next = s.after(outcomes[0]);
    lemma_run_follows_schedule(s, outcomes);
    if k == 0 {
        lemma_ended_makes_no_attempt(next, outcomes.drop_first());
    } else {
        assert(outcomes.drop_first() =~= failures_then_success((k - 1) as nat));
        lemma_recovery_from(next, (k - 1) as nat);
    }
}

/// A factory that fails `k` times and then succeeds, with `k` within the
/// retries that the policy grants, is invoked `k + 1` times; the health signal
/// is lowered `k` times; retry number `i` waits `delay_at(i)`; and the task
/// ends in success, with no error for its owner.
pub proof fn lemma_recovers_after_failures(policy: RetryPolicy, k: nat)
    requires
        policy.wf(),
        k <= policy.max_attempts,
    ensures
        Supervisor::initial(policy).run(failures_then_success(k)).invocations == k + 1,
        Supervisor::initial(policy).run(failures_then_success(k)).downgrades() == k,
        forall|i: int|
            0 <= i < k ==> #[trigger] Supervisor::initial(policy).run(
                failures_then_success(k),
            ).delays[i] == policy.delay_at(i as nat),
        Supervisor::initial(policy).run(failures_then_success(k)).end.phase == Phase::Succeeded,
{
    lemma_recovery_from(Supervisor::initial(policy), k);
}

/// From a running state, a factory that keeps failing for longer than the
/// retries that are left uses them all up: one attempt more than retries
/// left, one delay per retry, and the task ends exhausted.
pub proof fn lemma_exhaustion_from(s: Supervisor, outcomes: Seq<bool>)
    requires
        s.wf(),
        s.phase == Phase::Running,
        all_fail(outcomes),
        outcomes.len() > s.policy.max_attempts - s.attempt,
    ensures
        s.run(outcomes).invocations == s.policy.max_attempts - s.attempt + 1,
        s.run(outcomes).delays.len() == s.policy.max_attempts - s.attempt,
        forall|i: int|
            0 <= i < s.policy.max_attempts - s.attempt ==> #[trigger] s.run(outcomes).delays[i]
                == s.policy.delay_at((s.attempt + i) as nat),
        s.run(outcomes).end == (Supervisor {
            phase: Phase::Exhausted,
            attempt: s.policy.max_attempts,
            ..s
        }),
    decreases s.policy.max_attempts - s.attempt,
{
    let next = s.after(true);
    assert(outcomes[0]);
    lemma_run_follows_schedule(s, outcomes);
    if s.attempt == s.policy.max_attempts {
        lemma_ended_makes_no_attempt(next, outcomes.drop_first());
    } else {
        assert forall|i: int| 0 <= i < outcomes.drop_first().len() implies outcomes.drop_first()[i] by {
            assert(outcomes.drop_first()[i] == outcomes[i + 1]);
        }
        lemma_exhaustion_from(next, outcomes.drop_first());
    }
}

/// A factory that always fails is invoked once and then once for each retry
/// that the policy grants, `max_attempts + 1` times in all; the health signal
/// is lowered `max_attempts` times; and the task ends exhausted, which is when
/// the last error goes to its owner.
pub proof fn lemma_always_failing_exhausts(policy: RetryPolicy, outcomes: Seq<bool>)
    requires
        policy.wf(),
        all_fail(outcomes),
        outcomes.len() > policy.max_attempts,
    ensures
        Supervisor::initial(policy).run(outcomes).invocations == policy.max_attempts + 1,
        Supervisor::initial(policy).run(outcomes).downgrades() == policy.max_attempts,
        Supervisor::initial(policy).run(outcomes).end.phase == Phase::Exhausted,
{
    lemma_exhaustion_from(Supervisor::initial(policy), outcomes);
}

} // verus!
