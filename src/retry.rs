//! The backoff schedule for polling the chain height until it succeeds: sleep
//! 1 unit after the first failure, one unit more after each further failure,
//! never more than 5 units, and never give up.

use vstd::prelude::*;

verus! {

/// The longest sleep between two attempts.
pub const MAX_BACKOFF: u64 = 5;

/// What to do after an attempt.
#[derive(Clone, Copy, Debug, PartialEq, Eq)]
pub enum RetryAction {
    /// The attempt gave this height: return it.
    Done(u64),
    /// The attempt failed: sleep this many units, then try again.
    Sleep(u64),
}

/// The state of one height poll: the sleep that the next failure brings.
#[derive(Clone, Copy, Debug, PartialEq, Eq)]
pub struct HeightRetry {
    pub delay: u64,
}

/// The sleep after the `k`-th failure (counting from zero) of one poll.
pub open spec fn backoff(k: nat) -> u64 {
    if k + 1 < MAX_BACKOFF {
        (k + 1) as u64
    } else {
        MAX_BACKOFF
    }
}

impl HeightRetry {
    pub open spec fn wf(&self) -> bool {
        1 <= self.delay <= MAX_BACKOFF
    }

    /// A poll that has not failed yet.
    pub fn new() -> (r: HeightRetry)
        ensures
            r.wf(),
            r.delay == backoff(0),
    {
        HeightRetry { delay: 1 }
    }

    /// Decides what follows an attempt: a height ends the poll; a failure
    /// sleeps the current delay and lengthens the next one by one unit, up to
    /// the cap.
    pub fn on_attempt(&mut self, outcome: Option<u64>) -> (a: RetryAction)
        requires
            old(self).wf(),
        ensures
            final(self).wf(),
            match outcome {
                Some(h) => a == RetryAction::Done(h) && *final(self) == *old(self),
                None => a == RetryAction::Sleep(old(self).delay) && final(self).delay == if old(
                    self,
                ).delay < MAX_BACKOFF {
                    (old(self).delay + 1) as u64
                } else {
                    MAX_BACKOFF
                },
            },
    {
        match outcome {
            Some(h) => RetryAction::Done(h),
            None => {
                let d = self.delay;
                if self.delay < MAX_BACKOFF {
                    self.delay = self.delay + 1;
                }
                RetryAction::Sleep(d)
            },
        }
    }
}

/// After `k` failures of one poll the next sleep is `backoff(k)`: 1, 2, 3, 4,
/// then 5 for every later failure.
pub proof fn lemma_backoff_schedule(k: nat)
    ensures
        backoff(k) == if k < 4 {
            (k + 1) as u64
        } else {
            5u64
        },
        backoff(k + 1) == if backoff(k) < MAX_BACKOFF {
            (backoff(k) + 1) as u64
        } else {
            MAX_BACKOFF
        },
{
}

} // verus!
