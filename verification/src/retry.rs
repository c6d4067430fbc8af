//! The exponential backoff policy around the update collaborator.
//!
//! Every collaborator failure counts as transient, so the attempt
//! ceiling of the policy is the only circuit breaker.  The driver loop
//! calls the collaborator, and on each failure asks `Retry::on_failure`
//! whether to sleep and try again or to give up.

use vstd::prelude::*;

verus! {

/// An exponential backoff policy.  The multiplicative growth is the
/// rational `multiplier_num / multiplier_den`; the delay is capped at
/// `max_delay_ms`, and at most `max_attempts` collaborator calls are
/// made in one update attempt.
#[derive(Clone, Copy)]
pub struct RetryPolicy {
    pub initial_delay_ms: u64,
    pub multiplier_num: u64,
    pub multiplier_den: u64,
    pub max_delay_ms: u64,
    pub max_attempts: u32,
}

impl RetryPolicy {
    /// The policy is usable: the growth factor is at least one, the
    /// initial delay does not exceed the cap, the grown delay cannot
    /// overflow, and at least one attempt is allowed.
    pub open spec fn wf(self) -> bool {
        &&& self.multiplier_den >= 1
        &&& self.multiplier_num >= self.multiplier_den
        &&& self.initial_delay_ms <= self.max_delay_ms
        &&& self.max_delay_ms * self.multiplier_num <= u64::MAX
        &&& self.max_attempts >= 1
    }

    /// The delay that follows `d`: grown by the multiplier, then capped.
    pub open spec fn next_delay_spec(self, d: u64) -> int {
        let grown = d as int * self.multiplier_num as int / self.multiplier_den as int;
        if grown > self.max_delay_ms {
            self.max_delay_ms as int
        } else {
            grown
        }
    }

    /// The ceiling chosen for this agent: half a second to start, 3/2
    /// growth, one minute at most between calls, and at most ten calls
    /// per update attempt.
    pub fn standard() -> (p: RetryPolicy)
        ensures
            p.wf(),
            p == (RetryPolicy {
                initial_delay_ms: 500u64,
                multiplier_num: 3u64,
                multiplier_den: 2u64,
                max_delay_ms: 60000u64,
                max_attempts: 10u32,
            }),
    {
        RetryPolicy {
            initial_delay_ms: 500,
            multiplier_num: 3,
            multiplier_den: 2,
            max_delay_ms: 60000,
            max_attempts: 10,
        }
    }

    /// Computes the delay that follows `d` under this policy.
    pub fn next_delay(&self, d: u64) -> (r: u64)
        requires
            self.wf(),
            d <= self.max_delay_ms,
        ensures
            r == self.next_delay_spec(d),
            r <= self.max_delay_ms,
    {
        proof {
            assert(d * self.multiplier_num <= self.max_delay_ms * self.multiplier_num)
                by (nonlinear_arith)
                requires
                    d <= self.max_delay_ms,
            ;
        }
        let grown = (d * self.multiplier_num) / self.multiplier_den;
        if grown > self.max_delay_ms {
            self.max_delay_ms
        } else {
            grown
        }
    }
}

/// What the driver should do after a collaborator failure.
#[derive(Clone, Copy, Debug, PartialEq, Eq, Structural)]
pub enum RetryDecision {
    /// Sleep this many milliseconds, then call the collaborator again.
    RetryAfterMs(u64),
    /// The attempt ceiling is reached: report the failure and stop.
    GiveUp,
}

/// The state of one retried update attempt.
pub struct Retry {
    policy: RetryPolicy,
    retries: u32,
    delay_ms: u64,
}

impl Retry {
    /// The policy this attempt runs under.
    pub closed spec fn policy(self) -> RetryPolicy {
        self.policy
    }

    /// How many repeat calls were granted so far; the total number of
    /// collaborator calls is one more than this.
    pub closed spec fn retries(self) -> u32 {
        self.retries
    }

    /// The delay the next granted retry will wait.
    pub closed spec fn delay(self) -> u64 {
        self.delay_ms
    }

    /// The attempt state is usable and within the policy's bounds.
    pub closed spec fn wf(self) -> bool {
        &&& self.policy.wf()
        &&& self.delay_ms <= self.policy.max_delay_ms
        &&& self.retries + 1 <= self.policy.max_attempts
    }

    /// The attempt state is usable.  Exposed so that callers can state
    /// it; it holds from `new` on and every `on_failure` keeps it.
    pub open spec fn inv(self) -> bool {
        self.wf()
    }

    /// Starts an update attempt: no failures yet, initial delay pending.
    pub fn new(policy: RetryPolicy) -> (r: Retry)
        requires
            policy.wf(),
        ensures
            r.inv(),
            r.policy() == policy,
            r.retries() == 0,
            r.delay() == policy.initial_delay_ms,
    {
        Retry { policy, retries: 0, delay_ms: policy.initial_delay_ms }
    }

    /// Decides what follows a collaborator failure: grant a retry after
    /// the current delay and grow the delay, or give up once one more
    /// call would exceed the attempt ceiling.
    pub fn on_failure(&mut self) -> (d: RetryDecision)
        requires
            old(self).inv(),
        ensures
            final(self).inv(),
            final(self).policy() == old(self).policy(),
            d == RetryDecision::GiveUp <==> old(self).retries() + 2
                > old(self).policy().max_attempts,
            d == RetryDecision::GiveUp ==> *final(self) == *old(self),
            d matches RetryDecision::RetryAfterMs(ms) ==> ms == old(self).delay()
                && final(self).retries() == old(self).retries() + 1
                && final(self).delay() == old(self).policy().next_delay_spec(old(self).delay()),
    {
        if self.retries + 1 >= self.policy.max_attempts {
            RetryDecision::GiveUp
        } else {
            self.retries = self.retries + 1;
            let ms = self.delay_ms;
            self.delay_ms = self.policy.next_delay(ms);
            RetryDecision::RetryAfterMs(ms)
        }
    }
}

/// Law: however many failures arrive, the granted delay never exceeds
/// the policy's cap, and the number of collaborator calls (the retries
/// granted plus the first call) never exceeds the attempt ceiling.
pub proof fn lemma_retry_bounded(r: Retry)
    requires
        r.inv(),
    ensures
        r.delay() <= r.policy().max_delay_ms,
        r.retries() + 1 <= r.policy().max_attempts,
{
}

} // verus!
