use vstd::prelude::*;
use crate::poll::{Fault, PollResult};
use crate::time::Instant;
use crate::timer::{fires, fresh, stepped, Timer};

verus! {

/// How many ticks past the first poll the machine's own deadline lies.
pub const DELAY_TICKS: u64 = 10;

/// The hand-lowered state machine of a sequential routine with one
/// suspension point: set a deadline a fixed offset ahead, await it,
/// check the payload, finish. Transitions are strictly forward
/// (NotStarted, then Suspended owning its timer, then Terminated, which
/// drops the timer); polling a Terminated machine is a usage fault.
pub enum MainFuture {
    NotStarted,
    Suspended(Timer),
    Terminated,
}

impl MainFuture {
    pub fn new() -> (m: MainFuture)
        ensures
            m is NotStarted,
    {
        MainFuture::NotStarted
    }

    /// The machine's internal invariant: while suspended, the owned
    /// timer has not resolved yet (a Ready timer transitions the
    /// machine to Terminated within the same poll).
    pub open spec fn wf(self) -> bool {
        self matches MainFuture::Suspended(t) ==> !t.resolved
    }

    /// Whether the machine has reached its terminal state.
    pub fn is_terminated(&self) -> (b: bool)
        ensures
            b == (*self is Terminated),
    {
        match self {
            MainFuture::Terminated => true,
            _ => false,
        }
    }

    /// One poll at the clock reading `now`. A first poll arms the timer
    /// at `now + DELAY_TICKS` and falls through to polling it at once,
    /// so it always returns Pending with a waiter for that deadline; a
    /// suspended poll delegates to the timer and, on Ready, proves the
    /// payload and terminates. The poll returns on the first Pending,
    /// never spinning, and propagates the timer's waiter. Polling a
    /// Terminated machine is excluded here; `try_poll` reports it.
    pub fn poll(&mut self, now: Instant) -> (r: PollResult<()>)
        requires
            old(self).wf(),
            !(*old(self) is Terminated),
            *old(self) is NotStarted ==> now.ticks + DELAY_TICKS <= u64::MAX,
        ensures
            final(self).wf(),
            *old(self) is NotStarted ==> {
                &&& r matches PollResult::Pending(w) && w.fire_at.ticks == now.ticks + DELAY_TICKS
                &&& *final(self) == MainFuture::Suspended(
                    stepped(fresh(Instant { ticks: (now.ticks + DELAY_TICKS) as u64 }), now.ticks),
                )
            },
            *old(self) matches MainFuture::Suspended(t) ==> {
                &&& (fires(t, now.ticks) ==> r is Ready && *final(self) is Terminated)
                &&& (!fires(t, now.ticks) ==> {
                    &&& r matches PollResult::Pending(w) && w.fire_at == t.deadline
                    &&& *final(self) == MainFuture::Suspended(stepped(t, now.ticks))
                })
            },
            r is Ready <==> *final(self) is Terminated,
    {
        match &mut *self {
            MainFuture::NotStarted => {
                let deadline = now.plus(DELAY_TICKS);
                *self = MainFuture::Suspended(Timer::new(deadline));
            },
            _ => {},
        }
        match &mut *self {
            MainFuture::Suspended(t) => {
                match t.poll(now) {
                    PollResult::Ready(out) => {
                        // The expected payload holds statically; no runtime
                        // assertion is needed.
                        assert(out@ == "done"@);
                        *self = MainFuture::Terminated;
                        PollResult::Ready(())
                    },
                    PollResult::Pending(w) => PollResult::Pending(w),
                }
            },
            _ => vstd::pervasive::unreached(),
        }
    }

    /// Like `poll`, but total: polling after termination returns the
    /// usage fault instead of being excluded.
    pub fn try_poll(&mut self, now: Instant) -> (r: Result<PollResult<()>, Fault>)
        requires
            old(self).wf(),
            *old(self) is NotStarted ==> now.ticks + DELAY_TICKS <= u64::MAX,
        ensures
            final(self).wf(),
            *old(self) is Terminated ==> {
                &&& r == Result::<PollResult<()>, Fault>::Err(Fault::PolledAfterCompletion)
                &&& *final(self) == *old(self)
            },
            !(*old(self) is Terminated) ==> r is Ok,
            r matches Ok(p) ==> (p is Ready <==> *final(self) is Terminated),
            *old(self) is NotStarted ==> {
                &&& r matches Ok(p)
                &&& (p matches PollResult::Pending(w) && w.fire_at.ticks == now.ticks
                    + DELAY_TICKS)
                &&& *final(self) == MainFuture::Suspended(
                    stepped(fresh(Instant { ticks: (now.ticks + DELAY_TICKS) as u64 }), now.ticks),
                )
            },
            *old(self) matches MainFuture::Suspended(t) ==> {
                &&& (fires(t, now.ticks) ==> {
                    &&& r matches Ok(p)
                    &&& p is Ready
                    &&& *final(self) is Terminated
                })
                &&& (!fires(t, now.ticks) ==> {
                    &&& r matches Ok(p)
                    &&& p matches PollResult::Pending(w)
                    &&& w.fire_at == t.deadline
                    &&& *final(self) == MainFuture::Suspended(stepped(t, now.ticks))
                })
            },
    {
        match self {
            MainFuture::Terminated => Err(Fault::PolledAfterCompletion),
            _ => Ok(self.poll(now)),
        }
    }
}

} // verus!
