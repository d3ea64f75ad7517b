use vstd::prelude::*;

verus! {

/// A point in time, measured in ticks since an arbitrary epoch
/// (the real-time backend uses milliseconds). Comparisons on the tick
/// count give the total order the rest of the library relies on.
#[derive(Clone, Copy, PartialEq, Eq, Structural, Debug)]
pub struct Instant {
    pub ticks: u64,
}

impl Instant {
    pub fn new(ticks: u64) -> (r: Instant)
        ensures
            r.ticks == ticks,
    {
        Instant { ticks }
    }

    /// Whether `self` lies at or after `other`.
    pub fn at_or_after(&self, other: &Instant) -> (r: bool)
        ensures
            r == (self.ticks >= other.ticks),
    {
        self.ticks >= other.ticks
    }

    /// The instant `d` ticks later.
    pub fn plus(self, d: u64) -> (r: Instant)
        requires
            self.ticks + d <= u64::MAX,
        ensures
            r.ticks == self.ticks + d,
    {
        Instant { ticks: self.ticks + d }
    }
}

/// A simulated clock. Its only mutation moves time forward, so a driver
/// that reads it between polls never observes it going backward.
pub struct SimClock {
    pub ticks: u64,
}

impl SimClock {
    pub fn new(start: Instant) -> (c: SimClock)
        ensures
            c.ticks == start.ticks,
    {
        SimClock { ticks: start.ticks }
    }

    /// The current reading.
    pub fn now(&self) -> (r: Instant)
        ensures
            r.ticks == self.ticks,
    {
        Instant { ticks: self.ticks }
    }

    /// Move time forward to `t`; a target in the past leaves the clock
    /// unchanged, so the reading is monotone.
    pub fn advance_to(&mut self, t: Instant)
        ensures
            final(self).ticks == if t.ticks >= old(self).ticks {
                t.ticks
            } else {
                old(self).ticks
            },
            final(self).ticks >= old(self).ticks,
    {
        if t.ticks >= self.ticks {
            self.ticks = t.ticks;
        }
    }
}

} // verus!
