use vstd::prelude::*;
use crate::time::Instant;

verus! {

/// The wake signal between a pending operation and the driver. `wake`
/// OR-accumulates into a single pending flag; `take_wake` delivers it
/// edge-triggered: any number of wakes since the last take collapse to
/// one observed wake, which the take clears.
///
/// This is the sequential model of the channel; the driver owns it and
/// interleaves wakes and takes itself. A backend that really blocks
/// between polls realizes the same contract with a rendezvous primitive.
pub struct WakerChannel {
    pub pending: bool,
}

/// The channel after one `wake` call.
pub open spec fn woken(c: WakerChannel) -> WakerChannel {
    WakerChannel { pending: true }
}

/// The channel after a `take_wake` call.
pub open spec fn cleared(c: WakerChannel) -> WakerChannel {
    WakerChannel { pending: false }
}

/// The channel after `n` consecutive `wake` calls.
pub open spec fn woken_n(c: WakerChannel, n: nat) -> WakerChannel
    decreases n,
{
    if n == 0 {
        c
    } else {
        woken(woken_n(c, (n - 1) as nat))
    }
}

impl WakerChannel {
    /// A fresh channel with no wake pending.
    pub fn new() -> (c: WakerChannel)
        ensures
            !c.pending,
    {
        WakerChannel { pending: false }
    }

    /// Request a re-poll. Safe to call any number of times; duplicate
    /// calls before the next `take_wake` collapse into one pending wake,
    /// and waking an already-satisfied owner is a harmless no-op.
    pub fn wake(&mut self)
        ensures
            *final(self) == woken(*old(self)),
    {
        self.pending = true;
    }

    /// The driver's blocking wait, in the sequential model: the caller
    /// may proceed only once at least one `wake` has happened (a real
    /// backend blocks until then), and the delivery clears the flag —
    /// edge-triggered, however many wakes were coalesced into it.
    pub fn wait_for_wake(&mut self)
        requires
            old(self).pending,
        ensures
            *final(self) == cleared(*old(self)),
    {
        self.pending = false;
    }

    /// Observe and clear the pending wake. Returns whether at least one
    /// `wake` happened since the last take.
    pub fn take_wake(&mut self) -> (was: bool)
        ensures
            was == old(self).pending,
            *final(self) == cleared(*old(self)),
    {
        let was = self.pending;
        self.pending = false;
        was
    }
}

/// Law: wake coalescing. Any number `n >= 1` of `wake` calls leaves the
/// channel exactly as a single call does, so a following `take_wake`
/// observes one wake — and, once cleared, a second take observes none:
/// one unblock, not `n`.
pub proof fn lemma_wake_coalesces(c: WakerChannel, n: nat)
    requires
        n >= 1,
    ensures
        woken_n(c, n) == woken(c),
        woken_n(c, n).pending,
        !cleared(woken_n(c, n)).pending,
    decreases n,
{
    if n > 1 {
        lemma_wake_coalesces(c, (n - 1) as nat);
    }
}

/// Law: no missed wakeup, in the sequential model. Whatever the channel
/// held before, a `wake` that happens before the driver's `take_wake`
/// is observed by that take: the driver never waits on a wake that has
/// already been delivered.
pub proof fn lemma_wake_before_take_is_observed(c: WakerChannel)
    ensures
        woken(c).pending,
{
}

/// A background waiter, reified as a value: the request that, once the
/// clock reaches `fire_at`, the wake signal be invoked. The simulated
/// driver runs it by advancing its clock and waking; a real-time backend
/// runs it on its own execution unit, sleeping until `fire_at`. Dropping
/// a waiter without firing it is the harmless lost-waker case: the
/// owning future simply never gets re-polled by it.
pub struct Waiter {
    pub fire_at: Instant,
}

impl Waiter {
    /// Invoke the wake signal this waiter was armed for.
    pub fn fire(self, chan: &mut WakerChannel)
        ensures
            *final(chan) == woken(*old(chan)),
    {
        chan.wake();
    }
}

} // verus!
