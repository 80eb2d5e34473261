//! Translation of native window sub-events for the full event loop.

use crate::app::AppCommand;
use crate::native::WindowEvent;
use vstd::prelude::*;

verus! {

/// The command a window sub-event produces: shutdown on close, a resize
/// for either resize notice, nothing for every other sub-event.
pub open spec fn window_cmd(win_event: WindowEvent) -> Option<AppCommand> {
    match win_event {
        WindowEvent::Close => Some(AppCommand::Shutdown),
        WindowEvent::Resized(w, h) => Some(AppCommand::Resize(w as u32, h as u32)),
        WindowEvent::SizeChanged(w, h) => Some(AppCommand::Resize(w as u32, h as u32)),
        _ => None,
    }
}

/// Translates one window sub-event.
pub fn handle_window(win_event: WindowEvent) -> (r: Option<AppCommand>)
    ensures
        r == window_cmd(win_event),
{
    match win_event {
        WindowEvent::Close => Some(AppCommand::Shutdown),
        WindowEvent::Resized(w, h) => Some(AppCommand::Resize(w as u32, h as u32)),
        WindowEvent::SizeChanged(w, h) => Some(AppCommand::Resize(w as u32, h as u32)),
        _ => None,
    }
}

} // verus!
