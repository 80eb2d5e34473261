//! Models of the embedded engine's input surface.
//!
//! The engine accepts semantic input events whose positions are expressed in
//! the content surface's own coordinate space: the chrome inset (toolbar
//! height) has already been subtracted by the translator, so the engine
//! never sees raw window coordinates. Coordinates are widened to `i64` so
//! that the subtraction is exact for every native coordinate.

use crate::keys::KeyboardEvent;
use vstd::prelude::*;

verus! {

/// A point in the content surface's coordinate space, in device pixels.
#[derive(Clone, Copy, Debug, PartialEq, Eq, Structural)]
pub struct DevicePoint {
    pub x: i64,
    pub y: i64,
}

/// Pointer buttons in the engine's vocabulary.
#[derive(Clone, Copy, Debug, PartialEq, Eq, Structural)]
pub enum MouseButton {
    Left,
    Middle,
    Right,
    Back,
    Forward,
    Other(u16),
}

/// Whether a pointer button went down or up.
#[derive(Clone, Copy, Debug, PartialEq, Eq, Structural)]
pub enum MouseButtonAction {
    Down,
    Up,
}

/// A pointer button event in the engine's vocabulary.
#[derive(Clone, Copy, Debug, PartialEq, Eq, Structural)]
pub struct MouseButtonEvent {
    pub action: MouseButtonAction,
    pub button: MouseButton,
    pub point: DevicePoint,
}

/// A pointer motion event in the engine's vocabulary.
#[derive(Clone, Copy, Debug, PartialEq, Eq, Structural)]
pub struct MouseMoveEvent {
    pub point: DevicePoint,
}

/// The unit a wheel delta is expressed in.
#[derive(Clone, Copy, Debug, PartialEq, Eq, Structural)]
pub enum WheelMode {
    DeltaPixel,
    DeltaLine,
    DeltaPage,
}

/// A wheel displacement, in the 32-bit range the native queue reports;
/// scaling widens to `i64`, so it can never overflow.
#[derive(Clone, Copy, Debug, PartialEq, Eq, Structural)]
pub struct WheelDelta {
    pub x: i32,
    pub y: i32,
    pub z: i32,
    pub mode: WheelMode,
}

/// A wheel event in the engine's vocabulary.
#[derive(Clone, Copy, Debug, PartialEq, Eq, Structural)]
pub struct WheelEvent {
    pub delta: WheelDelta,
    pub point: DevicePoint,
}

/// One semantic input event forwarded to the embedded engine.
#[derive(Clone, Copy, Debug, PartialEq, Eq, Structural)]
pub enum InputEvent {
    Keyboard(KeyboardEvent),
    MouseButton(MouseButtonEvent),
    MouseMove(MouseMoveEvent),
    Wheel(WheelEvent),
}

/// Load progress of the focused page, as the engine reports it.
#[derive(Clone, Copy, Debug, PartialEq, Eq, Structural)]
pub enum LoadStatus {
    Started,
    HeadParsed,
    Complete,
}

} // verus!
