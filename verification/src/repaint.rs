//! Repaint scheduling: turning the UI's redraw deadline into a wait bound.
//!
//! The UI layer reports, once per frame, how soon it wants to be repainted
//! even if no input arrives. The scheduler converts that optional deadline
//! into the wait bound of the next blocking poll: no deadline means the
//! loop blocks indefinitely, so a timed-out wait can only ever be observed
//! after a bounded wait was requested.

use vstd::prelude::*;

verus! {

/// How long the next blocking wait on the native queue may last.
#[derive(Clone, Copy, Debug, PartialEq, Eq, Structural)]
pub enum WaitSpec {
    /// Block until an event or a wake-up arrives.
    Indefinite,
    /// Block at most this many milliseconds.
    BoundedMs(u32),
}

/// What the blocking wait came back with.
#[derive(Clone, Debug)]
pub enum WaitOutcome {
    /// The bounded wait elapsed with no event.
    TimedOut,
    /// An event was dequeued.
    Event(crate::native::NativeEvent),
}

/// The wait bound a deadline dictates.
pub open spec fn wait_spec_of(deadline: Option<u32>) -> WaitSpec {
    match deadline {
        None => WaitSpec::Indefinite,
        Some(ms) => WaitSpec::BoundedMs(ms),
    }
}

/// Converts the deadline taken from the UI into the next wait bound.
pub fn compute_wait_timeout(deadline: Option<u32>) -> (r: WaitSpec)
    ensures
        r == wait_spec_of(deadline),
{
    match deadline {
        None => WaitSpec::Indefinite,
        Some(ms) => WaitSpec::BoundedMs(ms),
    }
}

} // verus!
