//! The retry policy around the login handshake: permanent classifications
//! abort at once; transient ones are retried a bounded number of times with
//! capped exponential backoff.

use vstd::prelude::*;

verus! {

/// How one attempt's outcome stands towards the policy: worth another try,
/// or final — whether success or a permanent failure.
#[derive(Debug, Clone, Copy, PartialEq, Eq, Structural)]
pub enum RetryClass {
    Fatal,
    Retryable,
}

/// What the policy says to do next.
#[derive(Debug, Clone, Copy, PartialEq, Eq, Structural)]
pub enum RetryDecision {
    /// Surface the outcome as it stands.
    Stop,
    /// Wait this many milliseconds, then try again.
    RetryAfter(u64),
}

pub open spec fn spec_pow2(n: nat) -> int
    decreases n,
{
    if n == 0 {
        1
    } else {
        2 * spec_pow2((n - 1) as nat)
    }
}

/// The backoff delay before retry number `attempt` (counted from zero):
/// the base delay doubled each time, capped at the maximum.
pub open spec fn spec_capped_delay(base: u64, max: u64, attempt: nat) -> int {
    let raw = (base as int) * spec_pow2(attempt);
    if raw >= max {
        max as int
    } else {
        raw
    }
}

#[derive(Debug, Clone, Copy, PartialEq, Eq, Structural)]
pub struct RetryPolicy {
    /// Total attempts allowed, the first one included.
    pub max_attempts: u32,
    pub base_delay_ms: u64,
    pub max_delay_ms: u64,
}

impl RetryPolicy {
    pub open spec fn wf(&self) -> bool {
        self.max_attempts >= 1
    }

    /// The delay to wait after attempt number `attempt` (counted from
    /// zero) came back retryable.
    pub fn delay_for_attempt(&self, attempt: u32) -> (r: u64)
        ensures
            r == spec_capped_delay(self.base_delay_ms, self.max_delay_ms, attempt as nat),
    {
        let base = self.base_delay_ms;
        let max = self.max_delay_ms;
        let mut d: u64 = if base >= max {
            max
        } else {
            base
        };
        let mut k: u32 = 0;
        while k < attempt
            invariant
                0 <= k <= attempt,
                d == spec_capped_delay(base, max, k as nat),
                d <= max,
            decreases attempt - k,
        {
            proof {
                lemma_pow2_pos(k as nat);
                let p2 = spec_pow2(k as nat);
                let p2n = spec_pow2((k + 1) as nat);
                assert(p2n == 2 * p2);
                assert((base as int) * p2n == 2 * ((base as int) * p2)) by (nonlinear_arith)
                    requires
                        p2n == 2 * p2,
                {
                }
                assert((base as int) * p2 >= 0) by (nonlinear_arith)
                    requires
                        base >= 0,
                        p2 >= 1,
                {
                }
            }
            if d >= max - d {
                d = max;
            } else {
                d = d * 2;
            }
            k += 1;
        }
        d
    }

    /// What to do once attempt number `attempts_made` (counted from one)
    /// has come back: stop on anything final, stop once the attempt budget
    /// is spent, and otherwise wait the backed-off delay and try again.
    pub fn decide(&self, attempts_made: u32, class: RetryClass) -> (r: RetryDecision)
        requires
            attempts_made >= 1,
        ensures
            match r {
                RetryDecision::Stop => class is Fatal || attempts_made >= self.max_attempts,
                RetryDecision::RetryAfter(d) => class is Retryable && attempts_made
                    < self.max_attempts && d == spec_capped_delay(
                    self.base_delay_ms,
                    self.max_delay_ms,
                    (attempts_made - 1) as nat,
                ),
            },
    {
        match class {
            RetryClass::Fatal => RetryDecision::Stop,
            RetryClass::Retryable => {
                if attempts_made >= self.max_attempts {
                    RetryDecision::Stop
                } else {
                    RetryDecision::RetryAfter(self.delay_for_attempt(attempts_made - 1))
                }
            },
        }
    }
}

proof fn lemma_pow2_pos(n: nat)
    ensures
        spec_pow2(n) >= 1,
    decreases n,
{
    if n > 0 {
        lemma_pow2_pos((n - 1) as nat);
    }
}

/// How many attempts the login flow's policy allows in all.
pub open spec fn spec_login_max_attempts() -> int {
    5
}

/// The policy the login flow runs under.
pub fn login_retry_strategy() -> (r: RetryPolicy)
    ensures
        r.max_attempts == spec_login_max_attempts(),
        r.base_delay_ms == 500,
        r.max_delay_ms == 60000,
        r.wf(),
{
    RetryPolicy { max_attempts: 5, base_delay_ms: 500, max_delay_ms: 60000 }
}

} // verus!
