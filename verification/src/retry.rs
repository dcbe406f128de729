//! How often a write is tried again, and how long the worker waits before.

use vstd::arithmetic::power2::{lemma_pow2_pos, lemma_pow2_strictly_increases, lemma_pow2_unfold, pow2};
use vstd::prelude::*;

verus! {

/// The retry budget of a write to the metrics store.
#[derive(Clone, Copy, Debug, PartialEq, Eq)]
pub struct RetryPolicy {
    /// How many times one payload is written at most.
    pub max_attempts: u32,
    /// The wait, in milliseconds, after the first failure.
    pub base_delay_ms: u64,
    /// The longest wait, in milliseconds.
    pub max_delay_ms: u64,
}

impl RetryPolicy {
    /// The wait in milliseconds after the given number of failures in a row:
    /// the base wait, doubled for each failure after the first, and capped.
    pub open spec fn delay_after(self, failures: nat) -> nat {
        let doublings: nat = if failures == 0 {
            0
        } else {
            (failures - 1) as nat
        };
        let uncapped = self.base_delay_ms * pow2(doublings);
        if uncapped <= self.max_delay_ms {
            uncapped as nat
        } else {
            self.max_delay_ms as nat
        }
    }

    /// Whether the budget is spent after the given number of failures.
    pub open spec fn spent(self, failures: nat) -> bool {
        failures >= self.max_attempts
    }

    /// Five attempts, half a second after the first failure, thirty seconds
    /// at most.
    pub fn standard() -> (policy: RetryPolicy)
        ensures
            policy == (RetryPolicy { max_attempts: 5, base_delay_ms: 500, max_delay_ms: 30_000 }),
    {
        RetryPolicy { max_attempts: 5, base_delay_ms: 500, max_delay_ms: 30_000 }
    }

    /// Whether the budget is spent after `failures` failures.
    pub fn is_spent(&self, failures: u32) -> (spent: bool)
        ensures
            spent == self.spent(failures as nat),
    {
        failures >= self.max_attempts
    }

    /// The wait in milliseconds after `failures` failures in a row.
    pub fn delay(&self, failures: u32) -> (millis: u64)
        ensures
            millis == self.delay_after(failures as nat),
            millis <= self.max_delay_ms,
    {
        let doublings: u32 = if failures == 0 {
            0
        } else {
            failures - 1
        };
        let base = self.base_delay_ms;
        let cap = self.max_delay_ms;
        if base == 0 {
            assert(base * pow2(doublings as nat) == 0) by (nonlinear_arith)
                requires
                    base == 0,
            ;
            return 0;
        }
        proof {
            lemma_pow2_unfold(1);
            assert(pow2(0) == 1) by {
                vstd::arithmetic::power2::lemma2_to64();
            }
        }
        let mut wait: u64 = if base <= cap {
            base
        } else {
            cap
        };
        let mut done: u32 = 0;
        while done < doublings && wait < cap
            invariant
                base == self.base_delay_ms,
                cap == self.max_delay_ms,
                base > 0,
                done <= doublings,
                wait <= cap,
                base * pow2(done as nat) <= cap ==> wait == base * pow2(done as nat),
                base * pow2(done as nat) > cap ==> wait == cap,
            decreases doublings - done,
        {
            proof {
                lemma_pow2_unfold((done + 1) as nat);
                assert(base * pow2((done + 1) as nat) == 2 * (base * pow2(done as nat)))
                    by (nonlinear_arith)
                    requires
                        pow2((done + 1) as nat) == 2 * pow2(done as nat),
                ;
            }
            wait = if wait > cap - wait {
                cap
            } else {
                wait + wait
            };
            done += 1;
        }
        proof {
            if done < doublings {
                lemma_pow2_strictly_increases(done as nat, doublings as nat);
                lemma_pow2_pos(done as nat);
                assert(base * pow2(done as nat) <= base * pow2(doublings as nat))
                    by (nonlinear_arith)
                    requires
                        pow2(done as nat) < pow2(doublings as nat),
                        base > 0,
                ;
            }
        }
        wait
    }
}

/// No wait is longer than the cap.
pub proof fn delay_is_capped(policy: RetryPolicy, failures: nat)
    ensures
        policy.delay_after(failures) <= policy.max_delay_ms,
{
}

/// A further failure never shortens the wait.
pub proof fn delay_never_shrinks(policy: RetryPolicy, failures: nat)
    ensures
        policy.delay_after(failures) <= policy.delay_after(failures + 1),
{
    if failures > 0 {
        lemma_pow2_unfold(failures);
        let base = policy.base_delay_ms;
        assert(base * pow2((failures - 1) as nat) <= base * pow2(failures)) by (nonlinear_arith)
            requires
                pow2(failures) == 2 * pow2((failures - 1) as nat),
                base >= 0,
                pow2((failures - 1) as nat) >= 0,
        ;
    }
}

} // verus!
