//! UI coordinator: the toolbar façade in front of the embedded browser.
//!
//! The real toolkit lays out and paints the toolbar; the driver reports
//! what one frame did (which buttons were clicked, what was submitted in
//! the address bar, the toolbar's height, the next repaint deadline) as a
//! plain [`UiFrame`]. This module keeps the decisions: which commands a
//! frame emits, whether an event is consumed by chrome, the chrome-inset
//! subtraction for pointer positions, and the repaint bookkeeping.

use crate::app::AppCommand;
use crate::browser::BrowserCommand;
use crate::egui_sdl2::{
    dropped_after, focused_after, pointer_after, ui_events_of, ui_response_of, EventResponse,
    State, UiCtx,
};
use crate::native::NativeEvent;
use vstd::prelude::*;

verus! {

/// What one toolbar frame reported, as collected by the driver from the
/// real toolkit.
pub struct UiFrame {
    pub back_clicked: bool,
    pub forward_clicked: bool,
    pub reload_clicked: bool,
    /// Address-bar text submitted with the enter key, if any.
    pub go_submitted: Option<String>,
    /// Toolbar height in device pixels after layout.
    pub toolbar_height: u32,
    /// How soon the toolkit wants to be repainted, in milliseconds.
    pub repaint_delay_ms: u32,
}

/// UI coordinator state: the verifiable integration state, the current
/// chrome inset, the pending repaint deadline and the repaint latch.
pub struct AppUi {
    pub state: State,
    pub toolbar_height: u32,
    pub repaint_delay: Option<u32>,
    pub repaint_pending: bool,
}

/// Whether a remembered pointer position lies over the toolbar.
pub open spec fn pointer_over_toolbar_at(p: Option<(i32, i32)>, toolbar_height: u32) -> bool {
    match p {
        None => false,
        Some((_x, y)) => (y as int) < (toolbar_height as int),
    }
}

/// Whether the UI keeps one native event for itself: the toolkit must want
/// it and the pointer must be over chrome, so clicks aimed at page content
/// always reach the engine.
pub open spec fn gated_consumed(pre: AppUi, e: NativeEvent, ctx: UiCtx) -> bool {
    ui_response_of(pre.state.modifiers, e, ctx).consumed && pointer_over_toolbar_at(
        pointer_after(pre.state.pointer_pos, e),
        pre.toolbar_height,
    )
}

/// How one call of [`AppUi::handle_event`] relates the coordinator's state
/// after the call to the state before it.
pub open spec fn ui_handle_rel(pre: AppUi, post: AppUi, e: NativeEvent, ctx: UiCtx) -> bool {
    &&& post.state.events@ == pre.state.events@ + ui_events_of(pre.state.modifiers, e, ctx)
    &&& post.state.pointer_pos == pointer_after(pre.state.pointer_pos, e)
    &&& post.state.focused == focused_after(pre.state.focused, e)
    &&& post.state.modifiers == pre.state.modifiers
    &&& post.state.dropped_files@ == dropped_after(pre.state.dropped_files@, e)
    &&& post.repaint_pending == ui_response_of(pre.state.modifiers, e, ctx).repaint
    &&& post.toolbar_height == pre.toolbar_height
    &&& post.repaint_delay == pre.repaint_delay
}

/// The commands one toolbar frame emits, in toolbar order: back, forward,
/// reload (shown only while no load is in progress), then a navigation for
/// submitted address-bar text.
pub open spec fn ui_commands(is_loading: bool, f: UiFrame) -> Seq<AppCommand> {
    let back: Seq<AppCommand> = if f.back_clicked {
        seq![AppCommand::Browser(BrowserCommand::Back)]
    } else {
        Seq::empty()
    };
    let forward: Seq<AppCommand> = if f.forward_clicked {
        seq![AppCommand::Browser(BrowserCommand::Foward)]
    } else {
        Seq::empty()
    };
    let reload: Seq<AppCommand> = if !is_loading && f.reload_clicked {
        seq![AppCommand::Browser(BrowserCommand::Reload)]
    } else {
        Seq::empty()
    };
    let go: Seq<AppCommand> = match f.go_submitted {
        Some(text) => seq![AppCommand::Browser(BrowserCommand::Go(text))],
        None => Seq::empty(),
    };
    back + forward + reload + go
}

impl AppUi {
    /// A fresh coordinator: no chrome measured yet, no deadline, no
    /// pending repaint.
    pub fn new() -> (r: AppUi)
        ensures
            r.state.events@ == Seq::<crate::egui_sdl2::UiEvent>::empty(),
            r.state.pointer_pos is None,
            r.toolbar_height == 0,
            r.repaint_delay is None,
            r.repaint_pending == false,
    {
        AppUi {
            state: State::new(),
            toolbar_height: 0,
            repaint_delay: None,
            repaint_pending: false,
        }
    }

    /// Returns and clears the repaint deadline set by the last frame; a
    /// deadline is consumed exactly once and never reused.
    pub fn take_repain_delay(&mut self) -> (r: Option<u32>)
        ensures
            r == old(self).repaint_delay,
            final(self).repaint_delay is None,
            final(self).state == old(self).state,
            final(self).toolbar_height == old(self).toolbar_height,
            final(self).repaint_pending == old(self).repaint_pending,
    {
        let r = self.repaint_delay;
        self.repaint_delay = None;
        r
    }

    /// Maps a raw window position to the content surface: the chrome inset
    /// is subtracted from the y coordinate, exactly and unclamped.
    pub fn into_browser_rel_pos(&self, x: i32, y: i32) -> (r: (i64, i64))
        ensures
            r.0 == x as i64,
            r.1 == y as i64 - self.toolbar_height as i64,
    {
        (x as i64, y as i64 - self.toolbar_height as i64)
    }

    /// Whether the pointer currently sits over the toolbar.
    pub fn is_pointer_over_toolbar(&self) -> (r: bool)
        ensures
            r == pointer_over_toolbar_at(self.state.pointer_pos, self.toolbar_height),
    {
        match self.state.get_pointer_pos_in_points() {
            None => false,
            Some((_x, y)) => (y as i64) < (self.toolbar_height as i64),
        }
    }

    /// Feeds one native event through the UI integration and reports
    /// whether chrome consumed it and whether it asks for a repaint.
    pub fn handle_event(&mut self, event: &NativeEvent, ctx: &UiCtx) -> (r: EventResponse)
        ensures
            ui_handle_rel(*old(self), *final(self), *event, *ctx),
            r.repaint == ui_response_of(old(self).state.modifiers, *event, *ctx).repaint,
            r.consumed == gated_consumed(*old(self), *event, *ctx),
    {
        let resp = self.state.on_event(event, ctx);
        self.repaint_pending = resp.repaint;
        let consumed = resp.consumed && self.is_pointer_over_toolbar();
        EventResponse { consumed, repaint: resp.repaint }
    }

    /// Applies what one toolbar frame reported: emits the frame's commands
    /// in order, measures the chrome inset, and stores the next repaint
    /// deadline.
    pub fn update(&mut self, is_loading: bool, frame: UiFrame, commands: &mut Vec<AppCommand>)
        ensures
            final(commands)@ == old(commands)@ + ui_commands(is_loading, frame),
            final(self).toolbar_height == frame.toolbar_height,
            final(self).repaint_delay == Some(frame.repaint_delay_ms),
            final(self).repaint_pending == old(self).repaint_pending,
            final(self).state == old(self).state,
    {
        if frame.back_clicked {
            commands.push(AppCommand::Browser(BrowserCommand::Back));
        }
        if frame.forward_clicked {
            commands.push(AppCommand::Browser(BrowserCommand::Foward));
        }
        if !is_loading && frame.reload_clicked {
            commands.push(AppCommand::Browser(BrowserCommand::Reload));
        }
        match frame.go_submitted {
            Some(ref text) => {
                commands.push(AppCommand::Browser(BrowserCommand::Go(text.clone())));
            },
            None => {},
        }
        self.toolbar_height = frame.toolbar_height;
        self.repaint_delay = Some(frame.repaint_delay_ms);
        assert(commands@ =~= old(commands)@ + ui_commands(is_loading, frame));
    }

    /// Latches a repaint, so the iteration's draw step presents even
    /// without a toolkit-requested one; used for explicit draw commands.
    pub fn request_repaint(&mut self)
        ensures
            final(self).repaint_pending == true,
            final(self).state == old(self).state,
            final(self).toolbar_height == old(self).toolbar_height,
            final(self).repaint_delay == old(self).repaint_delay,
    {
        self.repaint_pending = true;
    }

    /// Decides whether this iteration paints the window: yes when a UI
    /// repaint is pending or the engine painted a frame underneath. The
    /// latch is clear afterwards either way.
    pub fn draw(&mut self, force: bool) -> (painted: bool)
        ensures
            painted == (old(self).repaint_pending || force),
            final(self).repaint_pending == false,
            final(self).state == old(self).state,
            final(self).toolbar_height == old(self).toolbar_height,
            final(self).repaint_delay == old(self).repaint_delay,
    {
        if self.repaint_pending || force {
            self.repaint_pending = false;
            true
        } else {
            false
        }
    }
}

} // verus!
