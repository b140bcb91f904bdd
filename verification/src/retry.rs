//! Bounded retry with exponential backoff.
//!
//! A policy allows a fixed number of attempts. The first attempt is made at
//! once; after `k` failed attempts the next one waits for the base delay
//! doubled `k - 1` times. When every allowed attempt has failed the policy
//! gives up.

use vstd::arithmetic::power2::{lemma_pow2_unfold, pow2};
use vstd::prelude::*;

verus! {

/// Attempts made for an image download before it is given up.
pub const MAX_RETRY_COUNT: u8 = 5;

/// Base delay between attempts of an image download, in milliseconds.
pub const RETRY_DELAY: u64 = 500;

/// The only HTTP status that counts as a successful fetch.
pub const STATUS_OK: u16 = 200;

/// Whether an HTTP status code counts as a successful fetch.
pub open spec fn status_is_success(status: u16) -> bool {
    status == STATUS_OK
}

/// What to do after a failed attempt.
#[derive(Clone, Copy, Debug, PartialEq, Eq, Structural)]
pub enum RetryDecision {
    /// Try again after waiting this many milliseconds.
    RetryAfter(u64),
    /// Every allowed attempt has failed.
    GiveUp,
}

/// The mathematical content of a retry policy.
pub struct PolicyModel {
    /// Number of attempts allowed in total.
    pub max_attempts: nat,
    /// Delay before the second attempt, in milliseconds.
    pub base_delay: nat,
}

impl PolicyModel {
    /// Milliseconds to wait before attempt number `attempt`, counted from 1.
    pub open spec fn delay_before(self, attempt: nat) -> nat {
        if attempt <= 1 {
            0
        } else {
            self.base_delay * pow2((attempt - 2) as nat)
        }
    }

    /// A policy allows at least one attempt, and its longest delay fits the
    /// clock's range.
    pub open spec fn valid(self) -> bool {
        &&& 1 <= self.max_attempts <= u8::MAX
        &&& self.base_delay <= u64::MAX
        &&& self.delay_before(self.max_attempts) <= u64::MAX
    }

    /// The decision after `failures` attempts have failed.
    pub open spec fn decide(self, failures: nat) -> RetryDecision {
        if failures >= self.max_attempts {
            RetryDecision::GiveUp
        } else {
            RetryDecision::RetryAfter(self.delay_before(failures + 1) as u64)
        }
    }
}

/// The policy of the image downloads: five attempts, the first retry after
/// half a second.
pub open spec fn image_policy() -> PolicyModel {
    PolicyModel { max_attempts: MAX_RETRY_COUNT as nat, base_delay: RETRY_DELAY as nat }
}

/// The policy of the catalog searches: one attempt and no retry.
pub open spec fn single_attempt_policy() -> PolicyModel {
    PolicyModel { max_attempts: 1, base_delay: 0 }
}

/// Each retry waits twice as long as the one before it.
pub proof fn lemma_delay_doubles(policy: PolicyModel, attempt: nat)
    requires
        attempt >= 2,
    ensures
        policy.delay_before(attempt + 1) == 2 * policy.delay_before(attempt),
{
    lemma_pow2_unfold((attempt - 1) as nat);
    assert(policy.base_delay * (2 * pow2((attempt - 2) as nat)) == 2 * (policy.base_delay * pow2(
        (attempt - 2) as nat,
    ))) by (nonlinear_arith);
}

/// Later attempts never wait less than earlier ones.
pub proof fn lemma_delay_monotone(policy: PolicyModel, earlier: nat, later: nat)
    requires
        earlier <= later,
    ensures
        policy.delay_before(earlier) <= policy.delay_before(later),
    decreases later - earlier,
{
    if earlier < later {
        lemma_delay_monotone(policy, earlier, (later - 1) as nat);
        if later >= 3 {
            lemma_delay_doubles(policy, (later - 1) as nat);
        }
    }
}

/// A retry policy: how many attempts are made and how long to wait between
/// them.
#[derive(Clone, Copy, Debug, PartialEq, Eq)]
pub struct RetryPolicy {
    max_attempts: u8,
    base_delay_ms: u64,
}

impl View for RetryPolicy {
    type V = PolicyModel;

    closed spec fn view(&self) -> PolicyModel {
        PolicyModel { max_attempts: self.max_attempts as nat, base_delay: self.base_delay_ms as nat }
    }
}

impl RetryPolicy {
    #[verifier::type_invariant]
    spec fn inv(self) -> bool {
        self@.valid()
    }

    /// Makes a policy of `max_attempts` attempts with the given base delay.
    ///
    /// Returns `None` when no attempt is allowed or when the delay before the
    /// last attempt would not fit in 64 bits.
    pub fn new(max_attempts: u8, base_delay_ms: u64) -> (policy: Option<RetryPolicy>)
        ensures
            match policy {
                Some(p) => p@ == (PolicyModel {
                    max_attempts: max_attempts as nat,
                    base_delay: base_delay_ms as nat,
                }) && p@.valid(),
                None => !(PolicyModel {
                    max_attempts: max_attempts as nat,
                    base_delay: base_delay_ms as nat,
                }).valid(),
            },
    {
        let ghost model = PolicyModel {
            max_attempts: max_attempts as nat,
            base_delay: base_delay_ms as nat,
        };
        if max_attempts == 0 {
            return None;
        }
        proof {
            assert(pow2(0) == 1) by {
                vstd::arithmetic::power2::lemma2_to64();
            }
            assert(model.delay_before(2) == base_delay_ms) by (nonlinear_arith)
                requires
                    model.delay_before(2) == base_delay_ms * pow2(0),
                    pow2(0) == 1,
            ;
        }
        let mut delay: u64 = base_delay_ms;
        let mut attempt: u8 = 2;
        while attempt < max_attempts
            invariant
                2 <= attempt,
                attempt <= max_attempts || max_attempts == 1,
                model.max_attempts == max_attempts,
                model.base_delay == base_delay_ms,
                delay == model.delay_before(attempt as nat),
            decreases max_attempts - attempt,
        {
            proof {
                lemma_delay_doubles(model, attempt as nat);
                lemma_delay_monotone(model, (attempt + 1) as nat, max_attempts as nat);
            }
            if delay > u64::MAX / 2 {
                return None;
            }
            delay = delay * 2;
            attempt = attempt + 1;
        }
        Some(RetryPolicy { max_attempts, base_delay_ms })
    }

    /// The policy for image downloads: five attempts, the first retry after
    /// half a second.
    pub fn image_download() -> (policy: RetryPolicy)
        ensures
            policy@ == image_policy(),
            policy@.valid(),
    {
        proof {
            vstd::arithmetic::power2::lemma2_to64();
        }
        RetryPolicy { max_attempts: MAX_RETRY_COUNT, base_delay_ms: RETRY_DELAY }
    }

    /// The policy for catalog searches: one attempt and no retry.
    pub fn single_attempt() -> (policy: RetryPolicy)
        ensures
            policy@ == single_attempt_policy(),
            policy@.valid(),
    {
        RetryPolicy { max_attempts: 1, base_delay_ms: 0 }
    }

    /// Number of attempts allowed in total.
    pub fn max_attempts(&self) -> (count: u8)
        ensures
            count == self@.max_attempts,
    {
        self.max_attempts
    }

    /// Delay before the second attempt, in milliseconds.
    pub fn base_delay_ms(&self) -> (millis: u64)
        ensures
            millis == self@.base_delay,
    {
        self.base_delay_ms
    }

    /// Milliseconds to wait before attempt number `attempt`, counted from 1.
    /// Attempts beyond the last allowed one wait as long as the last.
    pub fn delay_before_attempt(&self, attempt: u8) -> (millis: u64)
        ensures
            attempt <= self@.max_attempts ==> millis == self@.delay_before(attempt as nat),
            attempt > self@.max_attempts ==> millis == self@.delay_before(self@.max_attempts),
    {
        proof {
            use_type_invariant(self);
        }
        let last: u8 = if attempt <= self.max_attempts { attempt } else { self.max_attempts };
        if last <= 1 {
            return 0;
        }
        let mut delay: u64 = self.base_delay_ms;
        let mut reached: u8 = 2;
        proof {
            assert(pow2(0) == 1) by {
                vstd::arithmetic::power2::lemma2_to64();
            }
            assert(self@.delay_before(2) == self.base_delay_ms) by (nonlinear_arith)
                requires
                    self@.delay_before(2) == self.base_delay_ms * pow2(0),
                    pow2(0) == 1,
            ;
        }
        while reached < last
            invariant
                2 <= reached <= last <= self@.max_attempts,
                self@.valid(),
                delay == self@.delay_before(reached as nat),
            decreases last - reached,
        {
            proof {
                lemma_delay_doubles(self@, reached as nat);
                lemma_delay_monotone(self@, (reached + 1) as nat, self@.max_attempts);
            }
            delay = delay * 2;
            reached = reached + 1;
        }
        delay
    }

    /// Decides what follows when `failures` attempts have failed so far.
    pub fn after_failure(&self, failures: u8) -> (decision: RetryDecision)
        ensures
            decision == self@.decide(failures as nat),
    {
        if failures >= self.max_attempts {
            RetryDecision::GiveUp
        } else {
            RetryDecision::RetryAfter(self.delay_before_attempt(failures + 1))
        }
    }
}

/// Tells a successful HTTP status from one that calls for a retry.
pub fn is_success_status(status: u16) -> (ok: bool)
    ensures
        ok == status_is_success(status),
{
    status == STATUS_OK
}

} // verus!
