//! Translation of native window sub-events for the reduced input loop.

use crate::app::AppCmd;
use crate::native::WindowEvent;
use vstd::prelude::*;

verus! {

/// The commands a window sub-event produces: quit on close, a resize for
/// either resize notice, nothing for every other sub-event.
pub open spec fn window_cmds(win_event: WindowEvent) -> Seq<AppCmd> {
    match win_event {
        WindowEvent::Close => seq![AppCmd::Quit],
        WindowEvent::Resized(w, h) => seq![AppCmd::Resize(w as u32, h as u32)],
        WindowEvent::SizeChanged(w, h) => seq![AppCmd::Resize(w as u32, h as u32)],
        _ => Seq::empty(),
    }
}

/// Translates one window sub-event.
pub fn handle_window(win_event: WindowEvent) -> (r: Vec<AppCmd>)
    ensures
        r@ == window_cmds(win_event),
{
    let mut r: Vec<AppCmd> = Vec::new();
    match win_event {
        WindowEvent::Close => {
            r.push(AppCmd::Quit);
            assert(r@ =~= window_cmds(win_event));
        },
        WindowEvent::Resized(w, h) => {
            r.push(AppCmd::Resize(w as u32, h as u32));
            assert(r@ =~= window_cmds(win_event));
        },
        WindowEvent::SizeChanged(w, h) => {
            r.push(AppCmd::Resize(w as u32, h as u32));
            assert(r@ =~= window_cmds(win_event));
        },
        _ => {
            assert(r@ =~= window_cmds(win_event));
        },
    }
    r
}

} // verus!
