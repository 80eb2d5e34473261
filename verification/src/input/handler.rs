//! The reduced input loop's translator and its device list.
//!
//! The handler owns the list of connected game controllers (by instance id)
//! and turns each dequeued native record into commands. The blocking wait
//! on the real queue is the driver's job; the driver hands every dequeued
//! record to [`AppInputHandler::wait_event`].

use crate::app::AppCmd;
use crate::input::keyboard::{handle_keyboard, keyboard_event_of};
use crate::input::mouse::{
    handle_mouse_button, handle_mouse_move, handle_mouse_wheel, mouse_button_cmds, mouse_move_cmd,
    mouse_wheel_cmd,
};
use crate::input::window::{handle_window, window_cmds};
use crate::native::NativeEvent;
use vstd::prelude::*;

verus! {

/// Translator state: the instance ids of the connected game controllers.
pub struct AppInputHandler {
    pub game_controllers: Vec<u32>,
}

/// The commands one native record translates to in the reduced loop.
pub open spec fn input_cmds(event: NativeEvent) -> Seq<AppCmd> {
    match event {
        NativeEvent::MouseButtonUp { button, x, y } => mouse_button_cmds(button, x, y, false),
        NativeEvent::MouseButtonDown { button, x, y } => mouse_button_cmds(button, x, y, true),
        NativeEvent::MouseMotion { x, y } => seq![mouse_move_cmd(x, y)],
        NativeEvent::MouseWheel { x, y, mouse_x, mouse_y } => seq![
            mouse_wheel_cmd(x, y, mouse_x, mouse_y),
        ],
        NativeEvent::KeyDown { keycode, scancode, keymod, repeat } => {
            match keyboard_event_of(keycode, scancode, keymod, true, repeat) {
                Some(ev) => seq![
                    AppCmd::HandleInput(crate::engine::InputEvent::Keyboard(ev)),
                ],
                None => Seq::empty(),
            }
        },
        NativeEvent::KeyUp { keycode, scancode, keymod, repeat } => {
            match keyboard_event_of(keycode, scancode, keymod, false, repeat) {
                Some(ev) => seq![
                    AppCmd::HandleInput(crate::engine::InputEvent::Keyboard(ev)),
                ],
                None => Seq::empty(),
            }
        },
        NativeEvent::Quit => seq![AppCmd::Quit],
        NativeEvent::Window(win_event) => window_cmds(win_event),
        _ => Seq::empty(),
    }
}

/// The controller list after one native record: hot-plug events mutate it,
/// everything else leaves it alone.
pub open spec fn controllers_after(before: Seq<u32>, event: NativeEvent) -> Seq<u32> {
    match event {
        NativeEvent::ControllerDeviceAdded { which } => before.push(which),
        NativeEvent::ControllerDeviceRemoved { which } => before.filter(|id: u32| id != which),
        _ => before,
    }
}

impl AppInputHandler {
    /// Builds the translator from the instance ids of the controllers
    /// connected at startup, as enumerated by the driver.
    pub fn new(connected: Vec<u32>) -> (r: Self)
        ensures
            r.game_controllers@ == connected@,
    {
        AppInputHandler { game_controllers: connected }
    }

    /// Translates one dequeued native record into commands. Hot-plug
    /// records mutate the device list and produce no command; unknown
    /// records are dropped.
    pub fn wait_event(&mut self, event: &NativeEvent) -> (r: Vec<AppCmd>)
        ensures
            r@ == input_cmds(*event),
            final(self).game_controllers@ == controllers_after(
                old(self).game_controllers@,
                *event,
            ),
    {
        match event {
            NativeEvent::ControllerDeviceAdded { which } => {
                self.game_controllers.push(*which);
                Vec::new()
            },
            NativeEvent::ControllerDeviceRemoved { which } => {
                let w: u32 = *which;
                let mut kept: Vec<u32> = Vec::new();
                let n = self.game_controllers.len();
                let mut i: usize = 0;
                while i < n
                    invariant
                        0 <= i <= n,
                        n == self.game_controllers@.len(),
                        kept@ == self.game_controllers@.take(i as int).filter(
                            |id: u32| id != w,
                        ),
                    decreases n - i,
                {
                    let id = self.game_controllers[i];
                    assert(self.game_controllers@.take(i as int + 1).drop_last()
                        == self.game_controllers@.take(i as int));
                    reveal_with_fuel(Seq::filter, 2);
                    if id != w {
                        kept.push(id);
                    }
                    i += 1;
                }
                assert(self.game_controllers@.take(n as int) == self.game_controllers@);
                self.game_controllers = kept;
                Vec::new()
            },
            NativeEvent::MouseButtonUp { button, x, y } => {
                handle_mouse_button(*button, *x, *y, false)
            },
            NativeEvent::MouseButtonDown { button, x, y } => {
                handle_mouse_button(*button, *x, *y, true)
            },
            NativeEvent::MouseMotion { x, y } => handle_mouse_move(*x, *y),
            NativeEvent::MouseWheel { x, y, mouse_x, mouse_y } => {
                handle_mouse_wheel(*x, *y, *mouse_x, *mouse_y)
            },
            NativeEvent::KeyDown { keycode, scancode, keymod, repeat } => {
                handle_keyboard(*keycode, *scancode, *keymod, true, *repeat)
            },
            NativeEvent::KeyUp { keycode, scancode, keymod, repeat } => {
                handle_keyboard(*keycode, *scancode, *keymod, false, *repeat)
            },
            NativeEvent::Quit => {
                let mut r: Vec<AppCmd> = Vec::new();
                r.push(AppCmd::Quit);
                assert(r@ =~= input_cmds(*event));
                r
            },
            NativeEvent::Window(win_event) => handle_window(*win_event),
            _ => Vec::new(),
        }
    }
}

} // verus!
