use vstd::prelude::*;
use crate::machine::{MainFuture, DELAY_TICKS};
use crate::poll::PollResult;
use crate::time::SimClock;
use crate::timer::{fires, Timer};
use crate::wake::WakerChannel;

verus! {

/// How many more polls a timer can need under this driver: one, unless
/// the next poll already fires.
pub open spec fn timer_rank(t: Timer, clock: SimClock) -> nat {
    if fires(t, clock.ticks) {
        0
    } else {
        1
    }
}

/// How many more polls the state machine can need under this driver.
pub open spec fn machine_rank(m: MainFuture) -> nat {
    match m {
        MainFuture::NotStarted => 1,
        _ => 0,
    }
}

/// Drive a timer to completion over the simulated clock: poll it, and
/// while it is pending play the background waiter (advance the clock to
/// the waiter's fire time, invoke the wake signal) and block on the
/// channel before polling again. The run ends exactly when the clock
/// first reaches the deadline — no overshoot and no busy polling — and
/// yields the timer's payload.
pub fn run_timer_to_completion(t: &mut Timer, clock: &mut SimClock) -> (s: &'static str)
    requires
        !old(t).resolved,
        old(t).max_seen <= old(clock).ticks,
    ensures
        s@ == "done"@,
        final(t).resolved,
        final(t).deadline == old(t).deadline,
        final(clock).ticks == if old(t).deadline.ticks >= old(clock).ticks {
            old(t).deadline.ticks
        } else {
            old(clock).ticks
        },
{
    let mut chan = WakerChannel::new();
    let ghost n0: u64 = clock.ticks;
    let ghost d0: u64 = t.deadline.ticks;
    loop
        invariant
            n0 == old(clock).ticks,
            d0 == old(t).deadline.ticks,
            !t.resolved,
            t.max_seen <= clock.ticks,
            t.deadline.ticks == d0,
            clock.ticks == n0 || (n0 < d0 && clock.ticks == d0),
        decreases timer_rank(*t, *clock),
    {
        let now = clock.now();
        match t.poll(now) {
            PollResult::Ready(s) => {
                return s;
            },
            PollResult::Pending(w) => {
                // The waiter's work: wait until its fire time, then wake.
                clock.advance_to(w.fire_at);
                w.fire(&mut chan);
                // The driver blocks until a wake arrives, then re-polls.
                chan.wait_for_wake();
            },
        }
    }
}

/// Drive the state-machine future to completion over the simulated
/// clock, the same wait-for-wake cycle as for the bare timer. Every run
/// ends with the machine Terminated, returning its output exactly once,
/// and the clock stops exactly `DELAY_TICKS` past the first poll: the
/// deadline the machine chose, with no overshoot.
pub fn run_to_completion(f: &mut MainFuture, clock: &mut SimClock)
    requires
        *old(f) is NotStarted,
        old(clock).ticks + DELAY_TICKS <= u64::MAX,
    ensures
        *final(f) is Terminated,
        final(clock).ticks == old(clock).ticks + DELAY_TICKS,
{
    let mut chan = WakerChannel::new();
    let ghost n0: u64 = clock.ticks;
    loop
        invariant
            n0 == old(clock).ticks,
            f.wf(),
            !(*f is Terminated),
            n0 + DELAY_TICKS <= u64::MAX,
            *f is NotStarted ==> clock.ticks == n0,
            *f matches MainFuture::Suspended(t) ==> {
                &&& t.deadline.ticks == n0 + DELAY_TICKS
                &&& !t.resolved
                &&& t.max_seen <= clock.ticks
                &&& clock.ticks == n0 + DELAY_TICKS
            },
        decreases machine_rank(*f),
    {
        let now = clock.now();
        match f.poll(now) {
            PollResult::Ready(_out) => {
                return;
            },
            PollResult::Pending(w) => {
                // The waiter's work: wait until its fire time, then wake.
                clock.advance_to(w.fire_at);
                w.fire(&mut chan);
                // The driver blocks until a wake arrives, then re-polls.
                chan.wait_for_wake();
            },
        }
    }
}

} // verus!
