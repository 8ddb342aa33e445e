//! The retry policy of a supervised task and its backoff schedule.
//!
//! Time spans are whole nanoseconds held in a `u128`, which is wide enough for
//! every span that `std::time::Duration` can express.

use vstd::arithmetic::power2::{lemma2_to64, lemma_pow2_strictly_increases, lemma_pow2_unfold, pow2};
use vstd::prelude::*;

verus! {

/// Retries granted to a provider task after its first attempt.
pub const RETRIES: u32 = 25;

/// The first backoff delay of a provider task: 250 ms.
pub const BACKOFF_STEP: u128 = 250_000_000;

/// The ceiling of the backoff delay of a provider task: 2 s.
pub const MAX_DELAY: u128 = 2_000_000_000;

/// How long a cluster client may take to connect: 5 s.
pub const CONNECT_TIMEOUT: u128 = 5_000_000_000;

/// The smaller of two naturals.
pub open spec fn min_nat(a: nat, b: nat) -> nat {
    if a <= b {
        a
    } else {
        b
    }
}

/// Why a triple of parameters is no retry policy.
#[derive(Clone, Copy, Debug, PartialEq, Eq, Structural)]
pub enum PolicyError {
    /// The attempt cap is zero.
    NoAttempts,
    /// The backoff step is zero.
    ZeroStep,
    /// The backoff ceiling is below the backoff step.
    CeilingBelowStep,
}

/// The immutable parameters of the retry loop.
#[derive(Clone, Copy, Debug, PartialEq, Eq, Structural)]
pub struct RetryPolicy {
    /// How many failures are answered with a retry.
    pub max_attempts: u32,
    /// The delay after the first failure, in nanoseconds.
    pub backoff_step: u128,
    /// The longest delay between two attempts, in nanoseconds.
    pub max_delay: u128,
}

impl RetryPolicy {
    /// The invariant of a policy: at least one attempt, a positive step, and a
    /// ceiling that is not below the step.
    pub open spec fn wf(&self) -> bool {
        &&& self.max_attempts >= 1
        &&& self.backoff_step > 0
        &&& self.max_delay >= self.backoff_step
    }

    /// The delay that follows a failure when `attempt` retries were made before
    /// it: the step doubled `attempt` times, cut off at the ceiling.
    pub open spec fn delay_at(&self, attempt: nat) -> nat {
        min_nat(self.backoff_step as nat * pow2(attempt), self.max_delay as nat)
    }

    /// What `new` returns: the first broken rule, in the order attempts, step,
    /// ceiling, or else the policy.
    pub open spec fn checked(max_attempts: u32, backoff_step: u128, max_delay: u128) -> Result<
        RetryPolicy,
        PolicyError,
    > {
        if max_attempts == 0 {
            Err(PolicyError::NoAttempts)
        } else if backoff_step == 0 {
            Err(PolicyError::ZeroStep)
        } else if max_delay < backoff_step {
            Err(PolicyError::CeilingBelowStep)
        } else {
            Ok(RetryPolicy { max_attempts, backoff_step, max_delay })
        }
    }

    /// Builds a policy, or says which rule the parameters break.
    pub fn new(max_attempts: u32, backoff_step: u128, max_delay: u128) -> (r: Result<
        RetryPolicy,
        PolicyError,
    >)
        ensures
            r == Self::checked(max_attempts, backoff_step, max_delay),
            r is Ok ==> r->Ok_0.wf(),
    {
        if max_attempts == 0 {
            Err(PolicyError::NoAttempts)
        } else if backoff_step == 0 {
            Err(PolicyError::ZeroStep)
        } else if max_delay < backoff_step {
            Err(PolicyError::CeilingBelowStep)
        } else {
            Ok(RetryPolicy { max_attempts, backoff_step, max_delay })
        }
    }

    /// The policy of a provider task: 25 retries, from 250 ms up to 2 s.
    pub fn standard() -> (p: RetryPolicy)
        ensures
            p == (RetryPolicy { max_attempts: RETRIES, backoff_step: BACKOFF_STEP, max_delay: MAX_DELAY }),
            p.wf(),
    {
        RetryPolicy { max_attempts: RETRIES, backoff_step: BACKOFF_STEP, max_delay: MAX_DELAY }
    }

    /// Whether the invariant holds of this value.
    pub fn is_valid(&self) -> (b: bool)
        ensures
            b == self.wf(),
    {
        self.max_attempts >= 1 && self.backoff_step > 0 && self.max_delay >= self.backoff_step
    }

    /// The delay before the retry that answers a failure, when `attempt`
    /// retries were made before it.
    pub fn delay(&self, attempt: u32) -> (d: u128)
        requires
            self.wf(),
        ensures
            d == self.delay_at(attempt as nat),
            self.backoff_step <= d <= self.max_delay,
    {
        let mut d: u128 = self.backoff_step;
        let mut i: u32 = 0;
        proof {
            lemma_step_times_one(self.backoff_step as nat);
        }
        while i < attempt && d < self.max_delay
            invariant
                self.wf(),
                i <= attempt,
                d == self.delay_at(i as nat),
                self.backoff_step <= d <= self.max_delay,
            decreases attempt - i,
        {
            proof {
                lemma_doubling(self.backoff_step as nat, i as nat);
            }
            if d > self.max_delay - d {
                d = self.max_delay;
            } else {
                d = d + d;
            }
            i = i + 1;
        }
        proof {
            if i < attempt {
                lemma_delay_monotonic(*self, i as nat, attempt as nat);
            }
        }
        d
    }
}

/// The step doubled zero times is the step.
proof fn lemma_step_times_one(step: nat)
    ensures
        step * pow2(0) == step,
{
    lemma2_to64();
    assert(step * 1 == step) by (nonlinear_arith);
}

/// One more doubling doubles the product.
proof fn lemma_doubling(step: nat, i: nat)
    ensures
        step * pow2(i + 1) == 2 * (step * pow2(i)),
{
    lemma_pow2_unfold(i + 1);
    let p = pow2(i);
    assert(step * (2 * p) == 2 * (step * p)) by (nonlinear_arith);
}

/// The uncut delay does not shrink as the retries go on.
proof fn lemma_product_monotonic(step: nat, a: nat, b: nat)
    requires
        a <= b,
    ensures
        step * pow2(a) <= step * pow2(b),
{
    if a < b {
        lemma_pow2_strictly_increases(a, b);
    }
    let pa = pow2(a);
    let pb = pow2(b);
    assert(step * pa <= step * pb) by (nonlinear_arith)
        requires
            pa <= pb,
    ;
}

/// The first delay is the backoff step.
pub proof fn lemma_first_delay(p: RetryPolicy)
    requires
        p.wf(),
    ensures
        p.delay_at(0) == p.backoff_step,
{
    lemma_step_times_one(p.backoff_step as nat);
}

/// Every delay lies between the backoff step and the ceiling.
pub proof fn lemma_delay_bounded(p: RetryPolicy, attempt: nat)
    requires
        p.wf(),
    ensures
        p.backoff_step <= p.delay_at(attempt) <= p.max_delay,
{
    lemma_step_times_one(p.backoff_step as nat);
    lemma_product_monotonic(p.backoff_step as nat, 0, attempt);
}

/// The schedule never decreases: a later retry waits at least as long as an
/// earlier one.
pub proof fn lemma_delay_monotonic(p: RetryPolicy, earlier: nat, later: nat)
    requires
        earlier <= later,
    ensures
        p.delay_at(earlier) <= p.delay_at(later),
{
    lemma_product_monotonic(p.backoff_step as nat, earlier, later);
}

/// Once the schedule has reached the ceiling it stays there.
pub proof fn lemma_delay_stays_at_ceiling(p: RetryPolicy, earlier: nat, later: nat)
    requires
        earlier <= later,
        p.delay_at(earlier) == p.max_delay,
    ensures
        p.delay_at(later) == p.max_delay,
{
    lemma_product_monotonic(p.backoff_step as nat, earlier, later);
}

} // verus!
