//! A minimal, scheduler-free future runtime: a timer future that resolves
//! once a deadline has passed, a coalescing wake signal, a hand-lowered
//! state-machine future with one suspension point, and a single-future
//! driver that polls and waits for wakes until completion.
//!
//! Time is modeled as integer ticks read from an explicit clock value, so
//! every component is deterministic and fully specified; a real-time
//! backend only has to supply clock readings and run the background
//! waiters that `poll` hands back.

pub mod time;
pub mod wake;
pub mod poll;
pub mod timer;
pub mod machine;
pub mod driver;
