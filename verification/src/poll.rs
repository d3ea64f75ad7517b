use vstd::prelude::*;
use crate::wake::Waiter;

verus! {

/// The answer a future gives to one poll: either its output, or Pending
/// together with the freshly armed background waiter that will request
/// the next poll. Handing the waiter back makes the one side effect of a
/// pending poll explicit data instead of a hidden spawn.
pub enum PollResult<T> {
    Ready(T),
    Pending(Waiter),
}

/// A caller protocol violation. The only one this library knows is
/// polling a future again after it has already reported Ready.
#[derive(Clone, Copy, PartialEq, Eq, Structural, Debug)]
pub enum Fault {
    PolledAfterCompletion,
}

impl Fault {
    /// The diagnostic a driver should abort with.
    pub fn message(&self) -> (s: &'static str)
        ensures
            s@ == "future polled after completion"@,
    {
        "future polled after completion"
    }
}

} // verus!
