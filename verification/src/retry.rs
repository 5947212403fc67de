use vstd::prelude::*;

verus! {

/// Attempts granted when polling a node or daemon endpoint for
/// reachability.
pub const POLL_ATTEMPTS: u64 = 30;

/// Pause between two reachability attempts, in milliseconds.
pub const POLL_INTERVAL_MILLIS: u64 = 500;

/// The bounded retry budget of one reachability poll: a fixed number of
/// attempts, handed out one at a time. Exhausting it is a hard failure of
/// the stage, never an infinite wait.
pub struct RetryBudget {
    pub remaining: u64,
}

impl RetryBudget {
    /// A fresh budget of the given number of attempts.
    pub fn new(attempts: u64) -> (r: RetryBudget)
        ensures
            r.remaining == attempts,
    {
        RetryBudget { remaining: attempts }
    }

    /// Grant one attempt exactly while any is left, consuming it.
    pub fn try_attempt(&mut self) -> (granted: bool)
        ensures
            granted <==> old(self).remaining > 0,
            granted ==> final(self).remaining == old(self).remaining - 1,
            !granted ==> final(self).remaining == 0,
    {
        if self.remaining > 0 {
            self.remaining = self.remaining - 1;
            true
        } else {
            false
        }
    }
}

/// Law: a budget of `n` attempts grants an attempt while fewer than `n`
/// were consumed, and never grants an `n`-plus-first one.
pub proof fn lemma_budget_is_bounded(b: RetryBudget, attempts: u64, consumed: u64)
    requires
        consumed <= attempts,
        b.remaining == attempts - consumed,
    ensures
        (b.remaining > 0 <==> consumed < attempts),
{
}

} // verus!
