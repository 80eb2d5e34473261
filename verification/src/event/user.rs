//! The engine's cross-thread wake-up events.
//!
//! The engine's background threads post one application-registered event
//! kind into the native queue, carrying a small closed set of reason codes.
//! The codes exist for the process lifetime; only this shell's own sender
//! posts them, so a code outside the set cannot occur and is excluded by
//! precondition, which the queue registration guarantees.

use crate::app::AppCommand;
use vstd::prelude::*;

verus! {

/// Reasons the engine wakes the main loop.
#[derive(Clone, Copy, Debug, PartialEq, Eq, Structural)]
pub enum UserEvent {
    /// Background work is pending; waking the loop is enough.
    BrowserWakeup,
    /// A composited frame is ready and should be painted.
    BrowserFrameReady,
}

impl UserEvent {
    /// Decodes a posted reason code.
    pub fn from_code(code: i32) -> (r: UserEvent)
        requires
            0 <= code < 2,
        ensures
            code == 0 ==> r is BrowserWakeup,
            code == 1 ==> r is BrowserFrameReady,
    {
        if code == 0 {
            UserEvent::BrowserWakeup
        } else {
            UserEvent::BrowserFrameReady
        }
    }

    /// The code under which this reason is posted; inverse of `from_code`.
    pub fn code(&self) -> (r: i32)
        ensures
            *self is BrowserWakeup ==> r == 0,
            *self is BrowserFrameReady ==> r == 1,
            0 <= r < 2,
    {
        match self {
            UserEvent::BrowserWakeup => 0,
            UserEvent::BrowserFrameReady => 1,
        }
    }
}

/// The command a wake-up reason produces: a bare wake-up only breaks the
/// wait, a ready frame asks for a draw.
pub open spec fn user_cmd(code: i32) -> Option<AppCommand> {
    if code == 1 {
        Some(AppCommand::Draw)
    } else {
        None
    }
}

/// Translates one posted wake-up code.
pub fn handle_user(code: i32) -> (r: Option<AppCommand>)
    requires
        0 <= code < 2,
    ensures
        r == user_cmd(code),
{
    let event = UserEvent::from_code(code);
    match event {
        UserEvent::BrowserWakeup => None,
        UserEvent::BrowserFrameReady => Some(AppCommand::Draw),
    }
}

/// The sender half of the wake-up channel: the engine's background
/// threads post records of one application-registered event kind into the
/// native queue. Building the record is plain data work; the driver owns
/// the unsafe push into the queue.
#[derive(Clone, Copy, Debug, PartialEq, Eq, Structural)]
pub struct UserEventSender {
    /// The event kind the driver registered with the native queue.
    pub event_type: u32,
}

impl UserEventSender {
    /// Binds the sender to the registered event kind.
    pub fn new(event_type: u32) -> (r: Self)
        ensures
            r.event_type == event_type,
    {
        UserEventSender { event_type }
    }

    /// The record posted for one wake-up reason: the registered kind and
    /// the reason's code.
    pub fn message(&self, event: UserEvent) -> (r: (u32, i32))
        ensures
            r.0 == self.event_type,
            event is BrowserWakeup ==> r.1 == 0,
            event is BrowserFrameReady ==> r.1 == 1,
    {
        (self.event_type, event.code())
    }

    /// The record posted when the engine only needs the loop awake.
    pub fn wake(&self) -> (r: (u32, i32))
        ensures
            r.0 == self.event_type,
            r.1 == 0,
    {
        self.message(UserEvent::BrowserWakeup)
    }
}

} // verus!
