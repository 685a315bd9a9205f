use vstd::prelude::*;

verus! {

/// The delay that follows `delay_ms` after one more failure: doubled,
/// but never past the ceiling `max_ms`.
pub open spec fn bumped_delay(delay_ms: int, max_ms: int) -> int {
    if 2 * delay_ms <= max_ms {
        2 * delay_ms
    } else {
        max_ms
    }
}

/// A fresh policy's current delay once `n` consecutive failures have been
/// recorded: the wait the loop applies when failure `n + 1` arrives.
pub open spec fn delay_after_failures(base_ms: int, max_ms: int, n: nat) -> int
    decreases n,
{
    if n == 0 {
        base_ms
    } else {
        bumped_delay(delay_after_failures(base_ms, max_ms, (n - 1) as nat), max_ms)
    }
}

/// Delay before the first retry, in the reference configuration.
pub const DEFAULT_BASE_DELAY_MS: u64 = 1000;

/// Ceiling on the retry delay, in the reference configuration.
pub const DEFAULT_MAX_DELAY_MS: u64 = 60000;

/// Retry policy for the polling loop: exponential backoff with a ceiling.
///
/// The delay starts at `base_ms`, doubles on every consecutive failure,
/// is capped at `max_ms`, and resets to `base_ms` after any successful
/// fetch cycle.
pub struct RetryPolicy {
    pub base_ms: u64,
    pub max_ms: u64,
    pub current_ms: u64,
}

impl RetryPolicy {
    /// The policy's internal invariant: the current delay always lies
    /// between the starting delay and the ceiling.
    pub open spec fn wf(self) -> bool {
        1 <= self.base_ms <= self.current_ms <= self.max_ms
    }

    pub fn new(base_ms: u64, max_ms: u64) -> (policy: Self)
        requires
            1 <= base_ms <= max_ms,
        ensures
            policy.wf(),
            policy.base_ms == base_ms,
            policy.max_ms == max_ms,
            policy.current_ms == base_ms,
    {
        RetryPolicy { base_ms, max_ms, current_ms: base_ms }
    }

    /// The delay to wait before the next fetch attempt.
    pub fn current_delay_ms(&self) -> (delay: u64)
        ensures
            delay == self.current_ms,
    {
        self.current_ms
    }

    /// Record one more consecutive failure: the delay doubles, up to the
    /// ceiling, and in particular never decreases.
    pub fn on_failure(&mut self)
        requires
            old(self).wf(),
        ensures
            final(self).wf(),
            final(self).base_ms == old(self).base_ms,
            final(self).max_ms == old(self).max_ms,
            final(self).current_ms == bumped_delay(
                old(self).current_ms as int,
                old(self).max_ms as int,
            ),
            old(self).current_ms <= final(self).current_ms <= final(self).max_ms,
    {
        if self.current_ms <= self.max_ms / 2 {
            self.current_ms = 2 * self.current_ms;
        } else {
            self.current_ms = self.max_ms;
        }
    }

    /// Record a successful fetch cycle: the delay resets to the base.
    pub fn on_success(&mut self)
        requires
            old(self).wf(),
        ensures
            final(self).wf(),
            final(self).base_ms == old(self).base_ms,
            final(self).max_ms == old(self).max_ms,
            final(self).current_ms == final(self).base_ms,
    {
        self.current_ms = self.base_ms;
    }
}

/// Backoff growth: after any number of consecutive failures the retry
/// delay stays between the starting delay and the ceiling, and one more
/// failure never shrinks it.
pub proof fn lemma_backoff_nondecreasing_bounded(base_ms: int, max_ms: int, n: nat)
    requires
        1 <= base_ms <= max_ms,
    ensures
        base_ms <= delay_after_failures(base_ms, max_ms, n) <= max_ms,
        delay_after_failures(base_ms, max_ms, n) <= delay_after_failures(base_ms, max_ms, n + 1),
    decreases n,
{
    if n > 0 {
        lemma_backoff_nondecreasing_bounded(base_ms, max_ms, (n - 1) as nat);
    }
}

} // verus!
