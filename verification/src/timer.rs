use vstd::prelude::*;
use crate::poll::{Fault, PollResult};
use crate::time::Instant;
use crate::wake::Waiter;

verus! {

/// A future that is not ready until its deadline. It resolves the first
/// time a poll observes a clock reading at or past the deadline, and may
/// not be polled again after that (`try_poll` reports the fault instead
/// of panicking). `max_seen` remembers the latest sane reading, so a
/// clock that runs backward is detected and tolerated as "not yet
/// ready" rather than trusted.
pub struct Timer {
    pub deadline: Instant,
    pub resolved: bool,
    pub max_seen: u64,
}

/// A timer as `Timer::new` builds it: unresolved, nothing observed yet.
pub open spec fn fresh(deadline: Instant) -> Timer {
    Timer { deadline, resolved: false, max_seen: 0 }
}

/// Whether the reading `now` is a clock regression for this timer:
/// earlier than a reading a previous poll already observed.
pub open spec fn regressed(t: Timer, now: u64) -> bool {
    now < t.max_seen
}

/// Whether a poll at reading `now` resolves the timer: the reading is
/// sane and the deadline has been reached.
pub open spec fn fires(t: Timer, now: u64) -> bool {
    !regressed(t, now) && now >= t.deadline.ticks
}

/// The timer state after one poll at reading `now`: a regressed reading
/// changes nothing, otherwise the reading is recorded and the timer
/// resolves exactly when the deadline has been reached.
pub open spec fn stepped(t: Timer, now: u64) -> Timer {
    if regressed(t, now) {
        t
    } else {
        Timer { deadline: t.deadline, resolved: now >= t.deadline.ticks, max_seen: now }
    }
}

impl Timer {
    pub fn new(deadline: Instant) -> (t: Timer)
        ensures
            t == fresh(deadline),
    {
        Timer { deadline, resolved: false, max_seen: 0 }
    }

    /// One poll at the clock reading `now`. Ready exactly when `now` is
    /// sane and at or past the deadline; otherwise Pending, arming one
    /// new waiter bound to the deadline. Polling an already resolved
    /// timer is a protocol violation, excluded here; `try_poll` is the
    /// total form that reports it.
    pub fn poll(&mut self, now: Instant) -> (r: PollResult<&'static str>)
        requires
            !old(self).resolved,
        ensures
            *final(self) == stepped(*old(self), now.ticks),
            r is Ready <==> fires(*old(self), now.ticks),
            r matches PollResult::Ready(s) ==> s@ == "done"@,
            r matches PollResult::Pending(w) ==> w.fire_at == old(self).deadline,
    {
        if now.ticks < self.max_seen {
            // The clock ran backward: do not trust the reading, stay pending.
            PollResult::Pending(Waiter { fire_at: self.deadline })
        } else {
            self.max_seen = now.ticks;
            if now.ticks >= self.deadline.ticks {
                self.resolved = true;
                PollResult::Ready("done")
            } else {
                PollResult::Pending(Waiter { fire_at: self.deadline })
            }
        }
    }

    /// Like `poll`, but total: polling after the timer already reported
    /// Ready returns the usage fault instead of being excluded.
    pub fn try_poll(&mut self, now: Instant) -> (r: Result<PollResult<&'static str>, Fault>)
        ensures
            old(self).resolved ==> {
                &&& r == Result::<PollResult<&'static str>, Fault>::Err(
                    Fault::PolledAfterCompletion,
                )
                &&& *final(self) == *old(self)
            },
            !old(self).resolved ==> {
                &&& *final(self) == stepped(*old(self), now.ticks)
                &&& r is Ok
                &&& (r matches Ok(p) ==> {
                    &&& p is Ready <==> fires(*old(self), now.ticks)
                    &&& (p matches PollResult::Ready(s) ==> s@ == "done"@)
                    &&& (p matches PollResult::Pending(w) ==> w.fire_at == old(self).deadline)
                })
            },
    {
        if self.resolved {
            Err(Fault::PolledAfterCompletion)
        } else {
            Ok(self.poll(now))
        }
    }

    /// Whether the timer has already reported Ready.
    pub fn is_resolved(&self) -> (b: bool)
        ensures
            b == self.resolved,
    {
        self.resolved
    }
}

/// Law: for every deadline at or before the clock reading of the very
/// first poll, that first poll fires — a past or present deadline is
/// Ready immediately.
pub proof fn lemma_past_deadline_fires_first_poll(deadline: Instant, now: Instant)
    requires
        deadline.ticks <= now.ticks,
    ensures
        fires(fresh(deadline), now.ticks),
        stepped(fresh(deadline), now.ticks).resolved,
{
}

/// Law: for every deadline strictly after the first reading, the first
/// poll is Pending; once a later reading reaches the deadline, the poll
/// at that reading fires, exactly once — the timer is then resolved, so
/// every further poll is the usage fault that `try_poll` reports.
pub proof fn lemma_future_deadline_pends_then_fires(deadline: Instant, n0: Instant, n1: Instant)
    requires
        n0.ticks < deadline.ticks,
        n1.ticks >= deadline.ticks,
    ensures
        !fires(fresh(deadline), n0.ticks),
        !stepped(fresh(deadline), n0.ticks).resolved,
        fires(stepped(fresh(deadline), n0.ticks), n1.ticks),
        stepped(stepped(fresh(deadline), n0.ticks), n1.ticks).resolved,
{
}

} // verus!
