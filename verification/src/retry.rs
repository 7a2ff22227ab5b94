//! The retry policy of the network calls: how often a call is attempted and
//! how long to wait between attempts.
//!
//! A call is attempted up to three times. Before the second and the third
//! attempt the caller waits: the waits grow exponentially from 100 ms, and
//! each is shortened by a random amount.

use vstd::prelude::*;

verus! {

/// The most attempts made at one call.
pub const MAX_ATTEMPTS: u32 = 3;

/// The wait, in milliseconds, from which the back-off grows.
pub const BASE_DELAY_MS: u64 = 100;

/// The product of `a` and `b`, as far as 64 bits reach.
pub open spec fn saturating_product(a: u64, b: u64) -> u64 {
    if a * b <= u64::MAX {
        (a * b) as u64
    } else {
        u64::MAX
    }
}

/// The wait before any shortening, in milliseconds, that follows failure
/// number `n`, counted from zero: `base` to the power `n + 1`, as far as 64
/// bits reach.
pub open spec fn backoff_delay(base: u64, n: nat) -> u64
    decreases n,
{
    if n == 0 {
        base
    } else {
        saturating_product(backoff_delay(base, (n - 1) as nat), base)
    }
}

/// Calls `tokio_retry::strategy::ExponentialBackoff::from_millis` and takes
/// the first `count` durations that it yields, in milliseconds. The strategy
/// starts at `base` and multiplies by `base` at each step, saturating.
#[verifier::external_body]
fn exponential_delays(base: u64, count: usize) -> (delays: Vec<u64>)
    ensures
        delays@.len() == count,
        forall|i: int| 0 <= i < count ==> #[trigger] delays@[i] == backoff_delay(base, i as nat),
{
    tokio_retry::strategy::ExponentialBackoff::from_millis(base).take(count).map(
        |d| d.as_millis() as u64,
    ).collect()
}

/// Calls `tokio_retry::strategy::jitter`, which scales a duration by a random
/// factor. The outcome differs from call to call, and nothing is claimed of
/// it.
#[verifier::external_body]
fn jittered(delay_ms: u64) -> (r: u64) {
    tokio_retry::strategy::jitter(std::time::Duration::from_millis(delay_ms)).as_millis() as u64
}

/// The wait to use where the back-off says `delay_ms` and the random
/// shortening came out as `shortened`: the shorter of the two.
pub fn bounded_wait(delay_ms: u64, shortened: u64) -> (wait: u64)
    ensures
        wait == if shortened <= delay_ms {
            shortened
        } else {
            delay_ms
        },
{
    if shortened <= delay_ms {
        shortened
    } else {
        delay_ms
    }
}

/// How often a call is attempted, and the wait from which the back-off grows.
#[derive(Clone, Copy, Debug, PartialEq, Eq, Structural)]
pub struct RetryPolicy {
    pub max_attempts: u32,
    pub base_delay_ms: u64,
}

/// What to do after a failed attempt.
#[derive(Clone, Copy, Debug, PartialEq, Eq, Structural)]
pub enum RetryStep {
    /// Wait this many milliseconds, then attempt the call again.
    Wait(u64),
    /// The attempts are used up: the failure is final.
    GiveUp,
}

/// How one call ends under a policy.
#[derive(Clone, Copy, Debug, PartialEq, Eq, Structural)]
pub enum Verdict {
    /// An attempt succeeded.
    Succeeded,
    /// Every attempt allowed was made, and failed.
    Failed,
    /// Attempts are left, and none has succeeded yet.
    Undecided,
}

/// Whether failure number `failures`, counted from one, is final under a
/// policy that allows `max_attempts`.
pub open spec fn is_final(max_attempts: u32, failures: nat) -> bool {
    failures >= max_attempts
}

/// How a call ends whose attempts turn out as `outcomes` says, in order,
/// `true` for success, after `failures` attempts have already failed.
pub open spec fn verdict_after(max_attempts: u32, failures: nat, outcomes: Seq<bool>) -> Verdict
    decreases outcomes.len(),
{
    if outcomes.len() == 0 {
        Verdict::Undecided
    } else if outcomes[0] {
        Verdict::Succeeded
    } else if is_final(max_attempts, failures + 1) {
        Verdict::Failed
    } else {
        verdict_after(max_attempts, failures + 1, outcomes.drop_first())
    }
}

/// How a call ends, from its first attempt on.
pub open spec fn verdict(max_attempts: u32, outcomes: Seq<bool>) -> Verdict {
    verdict_after(max_attempts, 0, outcomes)
}

/// The attempts at one call.
pub struct Retry {
    policy: RetryPolicy,
    failures: u32,
    delays: Vec<u64>,
}

impl Retry {
    /// The policy that the attempts are made under.
    pub closed spec fn policy(&self) -> RetryPolicy {
        self.policy
    }

    /// The number of attempts that have failed.
    pub closed spec fn failures(&self) -> nat {
        self.failures as nat
    }

    /// The waits are those of the policy, one for each attempt but the first.
    pub closed spec fn well_formed(&self) -> bool {
        &&& self.policy.max_attempts >= 1
        &&& self.failures <= self.policy.max_attempts
        &&& self.delays@.len() == self.policy.max_attempts - 1
        &&& forall|i: int|
            0 <= i < self.delays@.len() ==> #[trigger] self.delays@[i] == backoff_delay(
                self.policy.base_delay_ms,
                i as nat,
            )
    }

    /// Three attempts, with waits that grow from 100 ms.
    pub fn standard_policy() -> (policy: RetryPolicy)
        ensures
            policy == (RetryPolicy { max_attempts: MAX_ATTEMPTS, base_delay_ms: BASE_DELAY_MS }),
    {
        RetryPolicy { max_attempts: MAX_ATTEMPTS, base_delay_ms: BASE_DELAY_MS }
    }

    /// The waits of a policy before any shortening, in milliseconds: one for
    /// each attempt but the first.
    pub fn schedule(policy: RetryPolicy) -> (waits: Vec<u64>)
        ensures
            waits@.len() == if policy.max_attempts == 0 {
                0
            } else {
                policy.max_attempts - 1
            },
            forall|i: int|
                0 <= i < waits@.len() ==> #[trigger] waits@[i] == backoff_delay(
                    policy.base_delay_ms,
                    i as nat,
                ),
    {
        let count: usize = if policy.max_attempts == 0 {
            0
        } else {
            (policy.max_attempts - 1) as usize
        };
        exponential_delays(policy.base_delay_ms, count)
    }

    /// The attempts at a call that has not been attempted yet. A policy that
    /// allows no attempt is taken to allow one.
    pub fn new(policy: RetryPolicy) -> (retry: Retry)
        ensures
            retry.well_formed(),
            retry.failures() == 0,
            retry.policy() == (RetryPolicy {
                max_attempts: if policy.max_attempts == 0 {
                    1
                } else {
                    policy.max_attempts
                },
                base_delay_ms: policy.base_delay_ms,
            }),
    {
        let max_attempts: u32 = if policy.max_attempts == 0 {
            1
        } else {
            policy.max_attempts
        };
        let policy = RetryPolicy { max_attempts, base_delay_ms: policy.base_delay_ms };
        Retry { policy, failures: 0, delays: Retry::schedule(policy) }
    }

    /// Takes note of a failed attempt and says what to do: give up where that
    /// was the last attempt allowed, and otherwise wait, no longer than the
    /// back-off says, and attempt again.
    pub fn on_failure(&mut self) -> (step: RetryStep)
        requires
            old(self).well_formed(),
        ensures
            final(self).well_formed(),
            final(self).policy() == old(self).policy(),
            final(self).failures() == if old(self).failures() < old(self).policy().max_attempts {
                old(self).failures() + 1
            } else {
                old(self).failures()
            },
            is_final(old(self).policy().max_attempts, old(self).failures() + 1) <==> step
                == RetryStep::GiveUp,
            step is Wait ==> step->Wait_0 <= backoff_delay(
                old(self).policy().base_delay_ms,
                old(self).failures(),
            ),
    {
        if self.failures >= self.policy.max_attempts - 1 {
            if self.failures < self.policy.max_attempts {
                self.failures = self.failures + 1;
            }
            return RetryStep::GiveUp;
        }
        let delay: u64 = self.delays[self.failures as usize];
        let wait = bounded_wait(delay, jittered(delay));
        self.failures = self.failures + 1;
        RetryStep::Wait(wait)
    }
}

/// A call succeeds exactly where one of the attempts allowed succeeds, and
/// fails for good exactly where all of them were made and failed. So a call
/// that fails twice and then succeeds has succeeded under three attempts, and
/// one that fails three times has failed.
pub proof fn lemma_verdict(max_attempts: u32, outcomes: Seq<bool>)
    requires
        max_attempts >= 1,
    ensures
        verdict(max_attempts, outcomes) == Verdict::Succeeded <==> exists|i: int|
            0 <= i < outcomes.len() && i < max_attempts && #[trigger] outcomes[i],
        verdict(max_attempts, outcomes) == Verdict::Failed <==> outcomes.len() >= max_attempts
            && forall|i: int| 0 <= i < max_attempts ==> !#[trigger] outcomes[i],
{
    lemma_verdict_after(max_attempts, 0, outcomes);
}

/// The same, after some attempts have failed already.
pub proof fn lemma_verdict_after(max_attempts: u32, failures: nat, outcomes: Seq<bool>)
    requires
        failures < max_attempts,
    ensures
        verdict_after(max_attempts, failures, outcomes) == Verdict::Succeeded <==> exists|i: int|
            0 <= i < outcomes.len() && failures + i < max_attempts && #[trigger] outcomes[i],
        verdict_after(max_attempts, failures, outcomes) == Verdict::Failed <==> failures
            + outcomes.len() >= max_attempts && forall|i: int|
            0 <= i < max_attempts - failures ==> !#[trigger] outcomes[i],
    decreases outcomes.len(),
{
    if outcomes.len() == 0 {
    } else if outcomes[0] {
    } else if is_final(max_attempts, failures + 1) {
    } else {
        let rest = outcomes.drop_first();
        lemma_verdict_after(max_attempts, failures + 1, rest);
        assert forall|i: int| 0 <= i < rest.len() implies rest[i] == outcomes[i + 1] by {}
        if verdict_after(max_attempts, failures + 1, rest) == Verdict::Succeeded {
            let i = choose|i: int|
                0 <= i < rest.len() && failures + 1 + i < max_attempts && #[trigger] rest[i];
            assert(outcomes[i + 1]);
        }
        if exists|i: int|
            0 <= i < outcomes.len() && failures + i < max_attempts && #[trigger] outcomes[i] {
            let i = choose|i: int|
                0 <= i < outcomes.len() && failures + i < max_attempts && #[trigger] outcomes[i];
            assert(rest[i - 1]);
        }
        if verdict_after(max_attempts, failures + 1, rest) == Verdict::Failed {
            assert forall|i: int| 0 <= i < max_attempts - failures implies !#[trigger] outcomes[i]
            by {
                if i > 0 {
                    assert(!rest[i - 1]);
                }
            }
        }
        if failures + outcomes.len() >= max_attempts && forall|i: int|
            0 <= i < max_attempts - failures ==> !#[trigger] outcomes[i] {
            assert forall|i: int| 0 <= i < max_attempts - (failures + 1) implies !#[trigger] rest[i]
            by {
                assert(!outcomes[i + 1]);
            }
        }
    }
}

} // verus!
