//! The cooperative executor's sleep decision: a process-wide work flag
//! that wakers set through the pender, and a sequentially-consistent swap
//! that decides whether the core may execute wait-for-interrupt.

use vstd::prelude::*;

verus! {

/// The single-threaded cooperative executor, reduced to the state its
/// sleep decision reads: the pended-work flag.
pub struct Executor {
    work_signaled: bool,
}

impl Executor {
    /// Whether work was signalled since the last swap.
    pub closed spec fn spec_signaled(&self) -> bool {
        self.work_signaled
    }

    /// The executor after the pender ran.
    pub closed spec fn spec_pend(self) -> Executor {
        Executor { work_signaled: true }
    }

    /// A fresh executor with no work signalled.
    pub fn new() -> (r: Executor)
        ensures
            !r.spec_signaled(),
    {
        Executor { work_signaled: false }
    }

    /// One sleep decision of the run loop, taken inside a critical
    /// section after a poll pass: swap the work flag with `false`.  The
    /// core may execute wait-for-interrupt exactly when the flag was
    /// clear; a set flag means a waker fired during the poll pass and the
    /// tasks are polled again first.
    pub fn should_sleep(&mut self) -> (sleep: bool)
        ensures
            sleep == !old(self).spec_signaled(),
            !final(self).spec_signaled(),
    {
        let signaled = self.work_signaled;
        self.work_signaled = false;
        !signaled
    }
}

impl Default for Executor {
    fn default() -> (r: Executor)
        ensures
            !r.spec_signaled(),
    {
        Executor { work_signaled: false }
    }
}

/// The pender: any waker-style callback calls it to record that there is
/// work to poll.
pub fn __pender(executor: &mut Executor)
    ensures
        *final(executor) == old(executor).spec_pend(),
        final(executor).spec_signaled(),
{
    executor.work_signaled = true;
}

/// Executor liveness: if the pender runs at any point after the previous
/// swap — during the poll pass or from an interrupt before the sleep
/// decision — the next swap observes the signal and the executor does not
/// sleep, so the pended task is re-polled.
pub proof fn lemma_executor_liveness(e: Executor)
    ensures
        e.spec_pend().spec_signaled(),
{
}

} // verus!
