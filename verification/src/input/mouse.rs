//! Translation of native pointer records into engine pointer events.

use crate::app::AppCmd;
use crate::engine::{
    DevicePoint, InputEvent, MouseButton, MouseButtonAction, MouseButtonEvent, MouseMoveEvent,
    WheelDelta, WheelEvent, WheelMode,
};
use vstd::prelude::*;

verus! {

/// The engine button a native pointer button stands for; an unknown
/// native button has none and its events are dropped.
pub open spec fn engine_button_of(button: crate::native::MouseButton) -> Option<MouseButton> {
    match button {
        crate::native::MouseButton::Unknown => None,
        crate::native::MouseButton::Left => Some(MouseButton::Left),
        crate::native::MouseButton::Middle => Some(MouseButton::Middle),
        crate::native::MouseButton::Right => Some(MouseButton::Right),
        crate::native::MouseButton::X1 => Some(MouseButton::Back),
        crate::native::MouseButton::X2 => Some(MouseButton::Forward),
    }
}

/// Converts one native pointer button; `None` for an unknown button.
pub fn into_engine_button(button: crate::native::MouseButton) -> (r: Option<MouseButton>)
    ensures
        r == engine_button_of(button),
{
    match button {
        crate::native::MouseButton::Unknown => None,
        crate::native::MouseButton::Left => Some(MouseButton::Left),
        crate::native::MouseButton::Middle => Some(MouseButton::Middle),
        crate::native::MouseButton::Right => Some(MouseButton::Right),
        crate::native::MouseButton::X1 => Some(MouseButton::Back),
        crate::native::MouseButton::X2 => Some(MouseButton::Forward),
    }
}

/// The commands emitted for a native pointer button record: one forwarded
/// event for a known button, at its raw window coordinates (this loop has
/// no chrome), and nothing for an unknown one.
pub open spec fn mouse_button_cmds(
    button: crate::native::MouseButton,
    x: i32,
    y: i32,
    down: bool,
) -> Seq<AppCmd> {
    match engine_button_of(button) {
        Some(b) => seq![
            AppCmd::HandleInput(
                InputEvent::MouseButton(
                    MouseButtonEvent {
                        action: if down {
                            MouseButtonAction::Down
                        } else {
                            MouseButtonAction::Up
                        },
                        button: b,
                        point: DevicePoint { x: x as i64, y: y as i64 },
                    },
                ),
            ),
        ],
        None => Seq::empty(),
    }
}

/// Translates one native pointer button record; unknown buttons are
/// dropped rather than erroring.
pub fn handle_mouse_button(button: crate::native::MouseButton, x: i32, y: i32, down: bool) -> (r:
    Vec<AppCmd>)
    ensures
        r@ == mouse_button_cmds(button, x, y, down),
{
    let mut r: Vec<AppCmd> = Vec::new();
    let b = match into_engine_button(button) {
        Some(b) => b,
        None => {
            assert(r@ =~= mouse_button_cmds(button, x, y, down));
            return r;
        },
    };
    let action = if down {
        MouseButtonAction::Down
    } else {
        MouseButtonAction::Up
    };
    let event = MouseButtonEvent {
        action,
        button: b,
        point: DevicePoint { x: x as i64, y: y as i64 },
    };
    r.push(AppCmd::HandleInput(InputEvent::MouseButton(event)));
    assert(r@ =~= mouse_button_cmds(button, x, y, down));
    r
}

/// The single command emitted for a native pointer motion record.
pub open spec fn mouse_move_cmd(x: i32, y: i32) -> AppCmd {
    AppCmd::HandleInput(
        InputEvent::MouseMove(MouseMoveEvent { point: DevicePoint { x: x as i64, y: y as i64 } }),
    )
}

/// Translates one native pointer motion record.
pub fn handle_mouse_move(x: i32, y: i32) -> (r: Vec<AppCmd>)
    ensures
        r@ == seq![mouse_move_cmd(x, y)],
{
    let event = MouseMoveEvent { point: DevicePoint { x: x as i64, y: y as i64 } };
    let mut r: Vec<AppCmd> = Vec::new();
    r.push(AppCmd::HandleInput(InputEvent::MouseMove(event)));
    assert(r@ =~= seq![mouse_move_cmd(x, y)]);
    r
}

/// The single command emitted for a native wheel record: line-unit deltas
/// at the pointer's raw position.
pub open spec fn mouse_wheel_cmd(x: i32, y: i32, mouse_x: i32, mouse_y: i32) -> AppCmd {
    AppCmd::HandleInput(
        InputEvent::Wheel(
            WheelEvent {
                delta: WheelDelta { x, y, z: 0, mode: WheelMode::DeltaLine },
                point: DevicePoint { x: mouse_x as i64, y: mouse_y as i64 },
            },
        ),
    )
}

/// Translates one native wheel record.
pub fn handle_mouse_wheel(x: i32, y: i32, mouse_x: i32, mouse_y: i32) -> (r: Vec<AppCmd>)
    ensures
        r@ == seq![mouse_wheel_cmd(x, y, mouse_x, mouse_y)],
{
    let event = WheelEvent {
        delta: WheelDelta { x, y, z: 0, mode: WheelMode::DeltaLine },
        point: DevicePoint { x: mouse_x as i64, y: mouse_y as i64 },
    };
    let mut r: Vec<AppCmd> = Vec::new();
    r.push(AppCmd::HandleInput(InputEvent::Wheel(event)));
    assert(r@ =~= seq![mouse_wheel_cmd(x, y, mouse_x, mouse_y)]);
    r
}

} // verus!
