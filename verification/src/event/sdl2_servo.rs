//! Assembly of engine input events from native records.
//!
//! Pointer positions handed to these builders are already content-relative:
//! the caller subtracts the chrome inset first, so an engine event never
//! carries raw window coordinates.

use crate::engine::{
    DevicePoint, MouseButtonAction, MouseButtonEvent, MouseMoveEvent, WheelDelta, WheelEvent,
    WheelMode,
};
use crate::input::keyboard::{
    keyboard_event_of, sdl_keycode_to_key, sdl_mod_to_modifiers, sdl_scancode_to_code,
};
use crate::keys::{KeyState, KeyboardEvent, Location};
use crate::native::{Keycode, Mod, Scancode};
use vstd::prelude::*;

verus! {

/// Assembles the engine keyboard event for one native key record; `None`
/// when the logical key is unmapped, so the record is dropped.
pub fn into_keyboard_event(kc: Keycode, sc: Scancode, m: Mod, down: bool, repeat: bool) -> (r:
    Option<KeyboardEvent>)
    ensures
        r == keyboard_event_of(kc, sc, m, down, repeat),
{
    let key = match sdl_keycode_to_key(kc) {
        Some(key) => key,
        None => {
            return None;
        },
    };
    Some(
        KeyboardEvent {
            state: if down {
                KeyState::Down
            } else {
                KeyState::Up
            },
            key,
            code: sdl_scancode_to_code(sc),
            location: Location::Standard,
            modifiers: sdl_mod_to_modifiers(m),
            repeat,
            is_composing: false,
        },
    )
}

/// The engine pointer-button event at a content-relative position; the
/// caller has already mapped the native button and dropped unknown ones.
pub open spec fn mouse_button_event_at(
    button: crate::engine::MouseButton,
    x: i64,
    y: i64,
    down: bool,
) -> MouseButtonEvent {
    MouseButtonEvent {
        action: if down {
            MouseButtonAction::Down
        } else {
            MouseButtonAction::Up
        },
        button,
        point: DevicePoint { x, y },
    }
}

/// Builds the engine pointer-button event.
pub fn into_mouse_button_event(
    button: crate::engine::MouseButton,
    x: i64,
    y: i64,
    down: bool,
) -> (r: MouseButtonEvent)
    ensures
        r == mouse_button_event_at(button, x, y, down),
{
    let action = if down {
        MouseButtonAction::Down
    } else {
        MouseButtonAction::Up
    };
    MouseButtonEvent { action, button, point: DevicePoint { x, y } }
}

/// Builds the engine pointer-motion event at a content-relative position.
pub fn into_mouse_move_event(x: i64, y: i64) -> (r: MouseMoveEvent)
    ensures
        r == (MouseMoveEvent { point: DevicePoint { x, y } }),
{
    MouseMoveEvent { point: DevicePoint { x, y } }
}

/// The engine wheel event: line-unit deltas at a content-relative position.
pub open spec fn wheel_event_at(dx: i32, dy: i32, mouse_x: i64, mouse_y: i64) -> WheelEvent {
    WheelEvent {
        delta: WheelDelta { x: dx, y: dy, z: 0, mode: WheelMode::DeltaLine },
        point: DevicePoint { x: mouse_x, y: mouse_y },
    }
}

/// Builds the engine wheel event.
pub fn into_wheel_event(dx: i32, dy: i32, mouse_x: i64, mouse_y: i64) -> (r: WheelEvent)
    ensures
        r == wheel_event_at(dx, dy, mouse_x, mouse_y),
{
    WheelEvent {
        delta: WheelDelta { x: dx, y: dy, z: 0, mode: WheelMode::DeltaLine },
        point: DevicePoint { x: mouse_x, y: mouse_y },
    }
}

} // verus!
