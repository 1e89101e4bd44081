//! The decisions of a hybrid precision wait: yield to the scheduler while
//! the deadline is far, poll the clock without yielding once it is near.
//! Times are microseconds of one monotonic clock.
use vstd::prelude::*;

verus! {

/// What a waiting caller does next.
#[derive(Debug, Clone, Copy, PartialEq, Eq, Structural)]
pub enum SleepStep {
    /// The deadline is further away than the tolerance: yield the processor
    /// for the shortest sleep the system offers, then read the clock again.
    Yield,
    /// The deadline is within the tolerance: read the clock again at once.
    Spin,
    /// The deadline has been reached.
    Done,
}

/// `a + b`, or the largest `u64` when that does not fit.
pub open spec fn sat_add(a: int, b: int) -> int {
    if a + b > u64::MAX {
        u64::MAX as int
    } else {
        a + b
    }
}

/// The step of a wait until `till` at time `now`, with tolerance `tolerance`.
pub open spec fn sleep_step(tolerance: u64, till: u64, now: u64) -> SleepStep {
    if now >= till {
        SleepStep::Done
    } else if till - now > tolerance {
        SleepStep::Yield
    } else {
        SleepStep::Spin
    }
}

/// A calibrated precision timer.
pub struct Timer {
    tolerance: u64,
}

impl Timer {
    /// A timer calibrated by one measurement of the shortest sleep the system
    /// offers: its tolerance is one and a half times that latency.
    pub fn new(measured: u64) -> (r: Timer)
        ensures
            r.spec_tolerance() == sat_add(measured as int, measured as int / 2),
    {
        Timer { tolerance: measured.saturating_add(measured / 2) }
    }

    pub closed spec fn spec_tolerance(&self) -> u64 {
        self.tolerance
    }

    /// The margin below which the timer polls instead of yielding.
    pub fn tolerance(&self) -> (r: u64)
        ensures
            r == self.spec_tolerance(),
    {
        self.tolerance
    }

    /// The next step of a wait until `till`, the clock reading `now`. The
    /// wait ends at the first reading at or past the deadline, and only there.
    pub fn sleep(&self, till: u64, now: u64) -> (r: SleepStep)
        ensures
            r == sleep_step(self.spec_tolerance(), till, now),
            r == SleepStep::Done <==> now >= till,
            r == SleepStep::Yield ==> till - now > self.spec_tolerance(),
    {
        if now >= till {
            SleepStep::Done
        } else if till - now > self.tolerance {
            SleepStep::Yield
        } else {
            SleepStep::Spin
        }
    }

    /// The next step of a wait for `duration` from `start`, the clock
    /// reading `now`.
    pub fn sleep_for(&self, start: u64, duration: u64, now: u64) -> (r: SleepStep)
        ensures
            r == sleep_step(
                self.spec_tolerance(),
                sat_add(start as int, duration as int) as u64,
                now,
            ),
            r == SleepStep::Done <==> now >= sat_add(start as int, duration as int),
    {
        self.sleep(start.saturating_add(duration), now)
    }
}

/// A wait ends no earlier than its deadline, whatever the tolerance: for
/// deadlines both nearer and further than the tolerance, the step is
/// `Done` exactly at readings at or past the deadline.
pub proof fn lemma_wait_not_early(tolerance: u64, till: u64, now: u64)
    ensures
        sleep_step(tolerance, till, now) == SleepStep::Done ==> now >= till,
        now >= till ==> sleep_step(tolerance, till, now) == SleepStep::Done,
{
}

} // verus!
