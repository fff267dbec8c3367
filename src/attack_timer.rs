use vstd::prelude::*;

verus! {

/// A repeating countdown between a tower's shots, in nanoseconds.
#[derive(Clone, Copy, Debug, PartialEq, Eq, Structural)]
pub struct AttackTimer {
    /// The length of one interval.
    pub interval: u64,
    /// The time run down in the current interval.
    pub elapsed: u64,
    /// Whether the last advance completed an interval.
    pub just_finished: bool,
}

impl AttackTimer {
    /// The timer's invariant: the elapsed time lies in `[0, interval]`.
    pub open spec fn wf(&self) -> bool {
        self.elapsed <= self.interval
    }
}

/// `t` after `dt` more nanoseconds. Whole intervals that complete roll over,
/// and the timer then reports that it just finished. A timer with a zero
/// interval finishes on every advance.
pub open spec fn advanced(t: AttackTimer, dt: u64) -> AttackTimer {
    let total = t.elapsed + dt;
    if t.interval == 0 {
        AttackTimer { interval: 0, elapsed: 0, just_finished: true }
    } else {
        AttackTimer {
            interval: t.interval,
            elapsed: (total % (t.interval as int)) as u64,
            just_finished: total >= t.interval,
        }
    }
}

/// `t` set back to the start of an interval.
pub open spec fn reset_timer(t: AttackTimer) -> AttackTimer {
    AttackTimer { interval: t.interval, elapsed: 0, just_finished: false }
}

impl AttackTimer {
    /// A timer at the start of an interval of `interval` nanoseconds.
    pub fn new(interval: u64) -> (r: AttackTimer)
        ensures
            r == (AttackTimer { interval, elapsed: 0, just_finished: false }),
            r.wf(),
    {
        AttackTimer { interval, elapsed: 0, just_finished: false }
    }

    /// Runs the timer on by `dt` nanoseconds.
    pub fn advance(&mut self, dt: u64)
        requires
            old(self).wf(),
        ensures
            *final(self) == advanced(*old(self), dt),
            final(self).wf(),
    {
        if self.interval == 0 {
            self.elapsed = 0;
            self.just_finished = true;
        } else {
            let total: u128 = self.elapsed as u128 + dt as u128;
            let interval: u128 = self.interval as u128;
            let rest: u128 = total % interval;
            self.elapsed = rest as u64;
            self.just_finished = total >= interval;
        }
    }

    /// Whether the last advance completed an interval.
    pub fn ready(&self) -> (r: bool)
        ensures
            r == self.just_finished,
    {
        self.just_finished
    }

    /// Sets the timer back to the start of an interval.
    pub fn reset(&mut self)
        ensures
            *final(self) == reset_timer(*old(self)),
            final(self).wf(),
    {
        self.elapsed = 0;
        self.just_finished = false;
    }
}

} // verus!
