//! Bounded retry with a fixed delay.
use vstd::prelude::*;

verus! {

/// How often, and after what pause, a failed network operation is tried again.
///
/// `max_retries` counts the attempts after the first failure, so an operation
/// is attempted at most `max_retries + 1` times.
#[derive(Clone, Copy, Debug, PartialEq, Eq, Structural)]
pub struct RetryPolicy {
    pub max_retries: u32,
    pub delay_secs: u64,
}

/// What to do after an attempt failed.
#[derive(Clone, Copy, Debug, PartialEq, Eq, Structural)]
pub enum RetryDecision {
    /// Pause for the policy's delay, then attempt again.
    Retry,
    /// Report the last failure.
    GiveUp,
}

/// The decision once `failures` attempts in a row have failed.
pub open spec fn retry_decision_of(max_retries: nat, failures: nat) -> RetryDecision {
    if failures > max_retries {
        RetryDecision::GiveUp
    } else {
        RetryDecision::Retry
    }
}

/// The number of attempts made on an operation that fails every time, once
/// `made` attempts have failed and the policy is asked after each of them.
pub open spec fn attempts_on_permanent_failure(max_retries: nat, made: nat) -> nat
    decreases max_retries + 1 - made,
{
    if retry_decision_of(max_retries, made) == RetryDecision::GiveUp || made > max_retries {
        made
    } else {
        attempts_on_permanent_failure(max_retries, made + 1)
    }
}

impl RetryPolicy {
    /// The decision once `failures` attempts in a row have failed.
    pub fn decide(&self, failures: u64) -> (d: RetryDecision)
        ensures
            d == retry_decision_of(self.max_retries as nat, failures as nat),
    {
        if failures > self.max_retries as u64 {
            RetryDecision::GiveUp
        } else {
            RetryDecision::Retry
        }
    }
}

proof fn lemma_attempts_from(max_retries: nat, made: nat)
    requires
        1 <= made <= max_retries + 1,
    ensures
        attempts_on_permanent_failure(max_retries, made) == max_retries + 1,
    decreases max_retries + 1 - made,
{
    if made <= max_retries {
        lemma_attempts_from(max_retries, made + 1);
    }
}

/// An operation that fails every time is attempted exactly `max_retries + 1`
/// times: the policy asks for a retry after each of the first `max_retries`
/// failures and gives up after the next one.
pub proof fn lemma_retry_bound(max_retries: nat)
    ensures
        attempts_on_permanent_failure(max_retries, 1) == max_retries + 1,
        forall|n: nat| 1 <= n <= max_retries ==> retry_decision_of(max_retries, n) == RetryDecision::Retry,
        retry_decision_of(max_retries, max_retries + 1) == RetryDecision::GiveUp,
{
    lemma_attempts_from(max_retries, 1);
}

} // verus!
