use pollwake::driver::{run_timer_to_completion, run_to_completion};
use pollwake::machine::{MainFuture, DELAY_TICKS};
use pollwake::poll::{Fault, PollResult};
use pollwake::time::{Instant, SimClock};
use pollwake::timer::Timer;
use pollwake::wake::{Waiter, WakerChannel};

#[test]
fn past_deadline_ready_on_first_poll() {
    let mut t = Timer::new(Instant::new(5));
    match t.poll(Instant::new(7)) {
        PollResult::Ready(s) => assert_eq!(s, "done"),
        PollResult::Pending(_) => panic!("past deadline must be ready at once"),
    }
    assert!(t.is_resolved());
}

#[test]
fn deadline_now_ready_on_first_poll() {
    let mut t = Timer::new(Instant::new(7));
    assert!(matches!(t.poll(Instant::new(7)), PollResult::Ready("done")));
}

#[test]
fn simulated_clock_fixed_before_deadline_of_one() {
    // A clock fixed at T0 and a timer whose deadline lies one tick earlier.
    let t0: u64 = 1_000;
    let clock = SimClock::new(Instant::new(t0));
    let mut timer = Timer::new(Instant::new(t0 - 1));
    match timer.poll(clock.now()) {
        PollResult::Ready(s) => assert_eq!(s, "done"),
        PollResult::Pending(_) => panic!("deadline in the past must be ready immediately"),
    }
}

#[test]
fn future_deadline_pending_then_ready_then_fault() {
    let mut chan = WakerChannel::new();
    let mut t = Timer::new(Instant::new(20));
    // First poll before the deadline: pending, one waiter armed for the deadline.
    let waiter = match t.poll(Instant::new(11)) {
        PollResult::Pending(w) => w,
        PollResult::Ready(_) => panic!("future deadline cannot be ready yet"),
    };
    assert_eq!(waiter.fire_at.ticks, 20);
    // The waiter fires once the deadline has passed; the wake is observed.
    waiter.fire(&mut chan);
    assert!(chan.take_wake());
    // The post-wake poll, at the deadline, is ready exactly once.
    assert!(matches!(t.poll(Instant::new(20)), PollResult::Ready("done")));
    // Every later poll is the usage fault, not a silent stale Ready.
    assert!(matches!(
        t.try_poll(Instant::new(21)),
        Err(Fault::PolledAfterCompletion)
    ));
    assert!(matches!(
        t.try_poll(Instant::new(22)),
        Err(Fault::PolledAfterCompletion)
    ));
}

fn try_poll_timer(t: &mut Timer, now: u64) -> Result<PollResult<&'static str>, Fault> {
    t.try_poll(Instant::new(now))
}

#[test]
fn clock_regression_is_tolerated_as_pending() {
    let mut t = Timer::new(Instant::new(10));
    assert!(matches!(try_poll_timer(&mut t, 5), Ok(PollResult::Pending(_))));
    // The clock runs backward: the reading is not trusted, the timer
    // stays pending instead of crashing.
    assert!(matches!(try_poll_timer(&mut t, 3), Ok(PollResult::Pending(_))));
    // A sane reading at the deadline resolves as usual.
    assert!(matches!(try_poll_timer(&mut t, 10), Ok(PollResult::Ready("done"))));
}

#[test]
fn wake_coalescing_many_wakes_one_unblock() {
    let mut chan = WakerChannel::new();
    chan.wake();
    chan.wake();
    chan.wake();
    // Three wakes before one take: exactly one observed wake.
    assert!(chan.take_wake());
    // Not three: the next take sees nothing pending.
    assert!(!chan.take_wake());
}

#[test]
fn wake_before_wait_is_observed() {
    // A wake that lands just before the driver would block is not missed:
    // the take observes it instead of waiting forever.
    let mut chan = WakerChannel::new();
    chan.wake();
    assert!(chan.take_wake());
}

#[test]
fn waiter_fire_delivers_a_wake() {
    let mut chan = WakerChannel::new();
    let w = Waiter {
        fire_at: Instant::new(42),
    };
    w.fire(&mut chan);
    assert!(chan.take_wake());
}

#[test]
fn dropped_waiter_is_a_harmless_no_op() {
    let mut chan = WakerChannel::new();
    let w = Waiter {
        fire_at: Instant::new(42),
    };
    drop(w);
    assert!(!chan.take_wake());
}

#[test]
fn machine_first_poll_suspends_with_offset_deadline() {
    let mut m = MainFuture::new();
    match m.poll(Instant::new(100)) {
        PollResult::Pending(w) => assert_eq!(w.fire_at.ticks, 100 + DELAY_TICKS),
        PollResult::Ready(_) => panic!("first poll must suspend on the fresh timer"),
    }
    assert!(!m.is_terminated());
}

#[test]
fn machine_terminates_after_deadline_and_then_faults() {
    let mut m = MainFuture::new();
    assert!(matches!(m.poll(Instant::new(100)), PollResult::Pending(_)));
    assert!(matches!(
        m.poll(Instant::new(100 + DELAY_TICKS)),
        PollResult::Ready(())
    ));
    assert!(m.is_terminated());
    // Polling a second time after completion raises the fault.
    assert!(matches!(
        m.try_poll(Instant::new(200)),
        Err(Fault::PolledAfterCompletion)
    ));
}

#[test]
fn fault_message_matches_the_abort_text() {
    assert_eq!(
        Fault::PolledAfterCompletion.message(),
        "future polled after completion"
    );
}

#[test]
fn run_to_completion_terminates_at_the_deadline() {
    let mut m = MainFuture::new();
    let mut clock = SimClock::new(Instant::new(1_000));
    run_to_completion(&mut m, &mut clock);
    assert!(m.is_terminated());
    // Bounded overhead: in simulated time the run ends exactly when the
    // ten-tick deadline is reached.
    assert_eq!(clock.now().ticks, 1_000 + DELAY_TICKS);
}

#[test]
fn run_timer_yields_done_and_stops_at_deadline() {
    let mut t = Timer::new(Instant::new(25));
    let mut clock = SimClock::new(Instant::new(15));
    let out = run_timer_to_completion(&mut t, &mut clock);
    assert_eq!(out, "done");
    assert!(t.is_resolved());
    assert_eq!(clock.now().ticks, 25);
}

#[test]
fn run_timer_with_past_deadline_returns_without_waiting() {
    let mut t = Timer::new(Instant::new(3));
    let mut clock = SimClock::new(Instant::new(9));
    let out = run_timer_to_completion(&mut t, &mut clock);
    assert_eq!(out, "done");
    // The clock did not move: no waiter was ever needed.
    assert_eq!(clock.now().ticks, 9);
}

#[test]
fn instant_and_clock_behave_as_plain_time() {
    let a = Instant::new(5);
    let b = Instant::new(7);
    assert!(b.at_or_after(&a));
    assert!(!a.at_or_after(&b));
    assert!(a.at_or_after(&a));
    assert_eq!(a.plus(2), b);
    let mut clock = SimClock::new(a);
    clock.advance_to(b);
    assert_eq!(clock.now().ticks, 7);
    // Advancing to the past is a no-op: readings never go backward.
    clock.advance_to(Instant::new(1));
    assert_eq!(clock.now().ticks, 7);
}

#[test]
fn wait_for_wake_delivers_coalesced_wakes_once() {
    let mut chan = WakerChannel::new();
    chan.wake();
    chan.wake();
    chan.wait_for_wake();
    // The single delivery cleared the flag, however many wakes fed it.
    assert!(!chan.take_wake());
}

#[test]
fn machine_driven_entirely_through_try_poll() {
    let mut m = MainFuture::new();
    let mut chan = WakerChannel::new();
    let waiter = match m.try_poll(Instant::new(0)) {
        Ok(PollResult::Pending(w)) => w,
        _ => panic!("a fresh machine must suspend on its first poll"),
    };
    assert_eq!(waiter.fire_at.ticks, DELAY_TICKS);
    waiter.fire(&mut chan);
    chan.wait_for_wake();
    assert!(matches!(
        m.try_poll(Instant::new(DELAY_TICKS)),
        Ok(PollResult::Ready(()))
    ));
    assert!(m.is_terminated());
}
