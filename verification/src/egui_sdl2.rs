//! Model of the immediate-mode UI integration.
//!
//! The real toolkit renders the toolbar and decides whether it wants an
//! event for itself; those per-event answers arrive here as a plain
//! [`UiCtx`]. This module keeps the verifiable half of the integration:
//! translating native records into the toolkit's input vocabulary,
//! tracking the pointer position and focus, and computing the
//! consumed/repaint response the event pump acts on.

use crate::native::{Keycode, Mod, NativeEvent, Scancode, WindowEvent};
use vstd::prelude::*;

verus! {

/// The pump's verdict on one native event: whether the UI consumed it and
/// whether the UI wants a repaint because of it.
#[derive(Clone, Copy, Debug, PartialEq, Eq, Structural)]
pub struct EventResponse {
    pub consumed: bool,
    pub repaint: bool,
}

impl EventResponse {
    /// Builds a response from its two flags.
    pub fn new(consumed: bool, repaint: bool) -> (r: Self)
        ensures
            r == (EventResponse { consumed, repaint }),
    {
        EventResponse { consumed, repaint }
    }
}

impl Default for EventResponse {
    /// The inert response: not consumed, no repaint.
    fn default() -> (r: Self)
        ensures
            r == (EventResponse { consumed: false, repaint: false }),
    {
        EventResponse { consumed: false, repaint: false }
    }
}

/// Modifier set in the UI toolkit's vocabulary.
#[derive(Clone, Copy, Debug, PartialEq, Eq, Structural)]
pub struct UiModifiers {
    pub ctrl: bool,
    pub shift: bool,
    pub alt: bool,
    pub mac_cmd: bool,
    pub command: bool,
}

impl UiModifiers {
    /// No modifier held.
    pub fn none() -> (r: UiModifiers)
        ensures
            r == (UiModifiers {
                ctrl: false, shift: false, alt: false, mac_cmd: false, command: false,
            }),
    {
        UiModifiers { ctrl: false, shift: false, alt: false, mac_cmd: false, command: false }
    }
}

/// Pointer buttons in the UI toolkit's vocabulary.
#[derive(Clone, Copy, Debug, PartialEq, Eq, Structural)]
pub enum UiPointerButton {
    Primary,
    Secondary,
    Middle,
    Extra1,
    Extra2,
}

/// Keys in the UI toolkit's vocabulary.
#[derive(Clone, Copy, Debug, PartialEq, Eq, Structural)]
pub enum UiKey {
    ArrowLeft,
    ArrowUp,
    ArrowRight,
    ArrowDown,
    Escape,
    Tab,
    Backspace,
    Space,
    Enter,
    Insert,
    Home,
    Delete,
    End,
    PageDown,
    PageUp,
    Num0,
    Num1,
    Num2,
    Num3,
    Num4,
    Num5,
    Num6,
    Num7,
    Num8,
    Num9,
    A,
    B,
    C,
    D,
    E,
    F,
    G,
    H,
    I,
    J,
    K,
    L,
    M,
    N,
    O,
    P,
    Q,
    R,
    S,
    T,
    U,
    V,
    W,
    X,
    Y,
    Z,
    F1,
    F2,
    F3,
    F4,
    F5,
    F6,
    F7,
    F8,
    F9,
    F10,
    F11,
    F12,
    Minus,
    Equals,
    Semicolon,
    Comma,
    Period,
    Slash,
    Backslash,
}

/// Input records queued for the UI toolkit. Wheel deltas and zoom steps are
/// carried as raw line counts; the toolkit applies its own scaling.
#[derive(Clone, Debug)]
pub enum UiEvent {
    PointerMoved { x: i32, y: i32 },
    PointerButton { x: i32, y: i32, button: UiPointerButton, pressed: bool, modifiers: UiModifiers },
    PointerGone,
    MouseWheel { dx: i64, dy: i64, modifiers: UiModifiers },
    Zoom { lines: i64 },
    Copy,
    Cut,
    Text(String),
    Key { key: UiKey, physical_key: Option<UiKey>, pressed: bool, repeat: bool, modifiers: UiModifiers },
    WindowFocused(bool),
}

/// The UI toolkit's own answers for the current event, supplied by the
/// driver: whether the toolkit is dragging with the pointer, wants pointer
/// or keyboard input, and what the clipboard holds for a paste chord.
#[derive(Clone, Debug)]
pub struct UiCtx {
    pub is_using_pointer: bool,
    pub wants_pointer_input: bool,
    pub wants_keyboard_input: bool,
    pub clipboard_text: Option<String>,
}

/// The UI key a layout keycode stands for, `None` for keys the toolkit has
/// no use for.
pub open spec fn ui_key_of_keycode(kc: Keycode) -> Option<UiKey> {
    match kc {
        Keycode::Left => Some(UiKey::ArrowLeft),
        Keycode::Up => Some(UiKey::ArrowUp),
        Keycode::Right => Some(UiKey::ArrowRight),
        Keycode::Down => Some(UiKey::ArrowDown),
        Keycode::Escape => Some(UiKey::Escape),
        Keycode::Tab => Some(UiKey::Tab),
        Keycode::Backspace => Some(UiKey::Backspace),
        Keycode::Space => Some(UiKey::Space),
        Keycode::Return => Some(UiKey::Enter),
        Keycode::Insert => Some(UiKey::Insert),
        Keycode::Home => Some(UiKey::Home),
        Keycode::Delete => Some(UiKey::Delete),
        Keycode::End => Some(UiKey::End),
        Keycode::PageDown => Some(UiKey::PageDown),
        Keycode::PageUp => Some(UiKey::PageUp),
        Keycode::Kp0 => Some(UiKey::Num0),
        Keycode::Num0 => Some(UiKey::Num0),
        Keycode::Kp1 => Some(UiKey::Num1),
        Keycode::Num1 => Some(UiKey::Num1),
        Keycode::Kp2 => Some(UiKey::Num2),
        Keycode::Num2 => Some(UiKey::Num2),
        Keycode::Kp3 => Some(UiKey::Num3),
        Keycode::Num3 => Some(UiKey::Num3),
        Keycode::Kp4 => Some(UiKey::Num4),
        Keycode::Num4 => Some(UiKey::Num4),
        Keycode::Kp5 => Some(UiKey::Num5),
        Keycode::Num5 => Some(UiKey::Num5),
        Keycode::Kp6 => Some(UiKey::Num6),
        Keycode::Num6 => Some(UiKey::Num6),
        Keycode::Kp7 => Some(UiKey::Num7),
        Keycode::Num7 => Some(UiKey::Num7),
        Keycode::Kp8 => Some(UiKey::Num8),
        Keycode::Num8 => Some(UiKey::Num8),
        Keycode::Kp9 => Some(UiKey::Num9),
        Keycode::Num9 => Some(UiKey::Num9),
        Keycode::A => Some(UiKey::A),
        Keycode::B => Some(UiKey::B),
        Keycode::C => Some(UiKey::C),
        Keycode::D => Some(UiKey::D),
        Keycode::E => Some(UiKey::E),
        Keycode::F => Some(UiKey::F),
        Keycode::G => Some(UiKey::G),
        Keycode::H => Some(UiKey::H),
        Keycode::I => Some(UiKey::I),
        Keycode::J => Some(UiKey::J),
        Keycode::K => Some(UiKey::K),
        Keycode::L => Some(UiKey::L),
        Keycode::M => Some(UiKey::M),
        Keycode::N => Some(UiKey::N),
        Keycode::O => Some(UiKey::O),
        Keycode::P => Some(UiKey::P),
        Keycode::Q => Some(UiKey::Q),
        Keycode::R => Some(UiKey::R),
        Keycode::S => Some(UiKey::S),
        Keycode::T => Some(UiKey::T),
        Keycode::U => Some(UiKey::U),
        Keycode::V => Some(UiKey::V),
        Keycode::W => Some(UiKey::W),
        Keycode::X => Some(UiKey::X),
        Keycode::Y => Some(UiKey::Y),
        Keycode::Z => Some(UiKey::Z),
        Keycode::F1 => Some(UiKey::F1),
        Keycode::F2 => Some(UiKey::F2),
        Keycode::F3 => Some(UiKey::F3),
        Keycode::F4 => Some(UiKey::F4),
        Keycode::F5 => Some(UiKey::F5),
        Keycode::F6 => Some(UiKey::F6),
        Keycode::F7 => Some(UiKey::F7),
        Keycode::F8 => Some(UiKey::F8),
        Keycode::F9 => Some(UiKey::F9),
        Keycode::F10 => Some(UiKey::F10),
        Keycode::F11 => Some(UiKey::F11),
        Keycode::F12 => Some(UiKey::F12),
        Keycode::Minus => Some(UiKey::Minus),
        Keycode::Equals => Some(UiKey::Equals),
        Keycode::Semicolon => Some(UiKey::Semicolon),
        Keycode::Comma => Some(UiKey::Comma),
        Keycode::Period => Some(UiKey::Period),
        Keycode::Slash => Some(UiKey::Slash),
        Keycode::Backslash => Some(UiKey::Backslash),
        _ => None,
    }
}

/// Maps a layout keycode into the UI toolkit's vocabulary.
pub fn into_egui_key(kc: Keycode) -> (r: Option<UiKey>)
    ensures
        r == ui_key_of_keycode(kc),
{
    match kc {
        Keycode::Left => Some(UiKey::ArrowLeft),
        Keycode::Up => Some(UiKey::ArrowUp),
        Keycode::Right => Some(UiKey::ArrowRight),
        Keycode::Down => Some(UiKey::ArrowDown),
        Keycode::Escape => Some(UiKey::Escape),
        Keycode::Tab => Some(UiKey::Tab),
        Keycode::Backspace => Some(UiKey::Backspace),
        Keycode::Space => Some(UiKey::Space),
        Keycode::Return => Some(UiKey::Enter),
        Keycode::Insert => Some(UiKey::Insert),
        Keycode::Home => Some(UiKey::Home),
        Keycode::Delete => Some(UiKey::Delete),
        Keycode::End => Some(UiKey::End),
        Keycode::PageDown => Some(UiKey::PageDown),
        Keycode::PageUp => Some(UiKey::PageUp),
        Keycode::Kp0 => Some(UiKey::Num0),
        Keycode::Num0 => Some(UiKey::Num0),
        Keycode::Kp1 => Some(UiKey::Num1),
        Keycode::Num1 => Some(UiKey::Num1),
        Keycode::Kp2 => Some(UiKey::Num2),
        Keycode::Num2 => Some(UiKey::Num2),
        Keycode::Kp3 => Some(UiKey::Num3),
        Keycode::Num3 => Some(UiKey::Num3),
        Keycode::Kp4 => Some(UiKey::Num4),
        Keycode::Num4 => Some(UiKey::Num4),
        Keycode::Kp5 => Some(UiKey::Num5),
        Keycode::Num5 => Some(UiKey::Num5),
        Keycode::Kp6 => Some(UiKey::Num6),
        Keycode::Num6 => Some(UiKey::Num6),
        Keycode::Kp7 => Some(UiKey::Num7),
        Keycode::Num7 => Some(UiKey::Num7),
        Keycode::Kp8 => Some(UiKey::Num8),
        Keycode::Num8 => Some(UiKey::Num8),
        Keycode::Kp9 => Some(UiKey::Num9),
        Keycode::Num9 => Some(UiKey::Num9),
        Keycode::A => Some(UiKey::A),
        Keycode::B => Some(UiKey::B),
        Keycode::C => Some(UiKey::C),
        Keycode::D => Some(UiKey::D),
        Keycode::E => Some(UiKey::E),
        Keycode::F => Some(UiKey::F),
        Keycode::G => Some(UiKey::G),
        Keycode::H => Some(UiKey::H),
        Keycode::I => Some(UiKey::I),
        Keycode::J => Some(UiKey::J),
        Keycode::K => Some(UiKey::K),
        Keycode::L => Some(UiKey::L),
        Keycode::M => Some(UiKey::M),
        Keycode::N => Some(UiKey::N),
        Keycode::O => Some(UiKey::O),
        Keycode::P => Some(UiKey::P),
        Keycode::Q => Some(UiKey::Q),
        Keycode::R => Some(UiKey::R),
        Keycode::S => Some(UiKey::S),
        Keycode::T => Some(UiKey::T),
        Keycode::U => Some(UiKey::U),
        Keycode::V => Some(UiKey::V),
        Keycode::W => Some(UiKey::W),
        Keycode::X => Some(UiKey::X),
        Keycode::Y => Some(UiKey::Y),
        Keycode::Z => Some(UiKey::Z),
        Keycode::F1 => Some(UiKey::F1),
        Keycode::F2 => Some(UiKey::F2),
        Keycode::F3 => Some(UiKey::F3),
        Keycode::F4 => Some(UiKey::F4),
        Keycode::F5 => Some(UiKey::F5),
        Keycode::F6 => Some(UiKey::F6),
        Keycode::F7 => Some(UiKey::F7),
        Keycode::F8 => Some(UiKey::F8),
        Keycode::F9 => Some(UiKey::F9),
        Keycode::F10 => Some(UiKey::F10),
        Keycode::F11 => Some(UiKey::F11),
        Keycode::F12 => Some(UiKey::F12),
        Keycode::Minus => Some(UiKey::Minus),
        Keycode::Equals => Some(UiKey::Equals),
        Keycode::Semicolon => Some(UiKey::Semicolon),
        Keycode::Comma => Some(UiKey::Comma),
        Keycode::Period => Some(UiKey::Period),
        Keycode::Slash => Some(UiKey::Slash),
        Keycode::Backslash => Some(UiKey::Backslash),
        _ => None,
    }
}

/// The UI key a physical scancode stands for, `None` for unmapped ones.
pub open spec fn ui_key_of_scancode(sc: Scancode) -> Option<UiKey> {
    match sc {
        Scancode::A => Some(UiKey::A),
        Scancode::B => Some(UiKey::B),
        Scancode::C => Some(UiKey::C),
        Scancode::D => Some(UiKey::D),
        Scancode::E => Some(UiKey::E),
        Scancode::F => Some(UiKey::F),
        Scancode::G => Some(UiKey::G),
        Scancode::H => Some(UiKey::H),
        Scancode::I => Some(UiKey::I),
        Scancode::J => Some(UiKey::J),
        Scancode::K => Some(UiKey::K),
        Scancode::L => Some(UiKey::L),
        Scancode::M => Some(UiKey::M),
        Scancode::N => Some(UiKey::N),
        Scancode::O => Some(UiKey::O),
        Scancode::P => Some(UiKey::P),
        Scancode::Q => Some(UiKey::Q),
        Scancode::R => Some(UiKey::R),
        Scancode::S => Some(UiKey::S),
        Scancode::T => Some(UiKey::T),
        Scancode::U => Some(UiKey::U),
        Scancode::V => Some(UiKey::V),
        Scancode::W => Some(UiKey::W),
        Scancode::X => Some(UiKey::X),
        Scancode::Y => Some(UiKey::Y),
        Scancode::Z => Some(UiKey::Z),
        Scancode::Num0 => Some(UiKey::Num0),
        Scancode::Num1 => Some(UiKey::Num1),
        Scancode::Num2 => Some(UiKey::Num2),
        Scancode::Num3 => Some(UiKey::Num3),
        Scancode::Num4 => Some(UiKey::Num4),
        Scancode::Num5 => Some(UiKey::Num5),
        Scancode::Num6 => Some(UiKey::Num6),
        Scancode::Num7 => Some(UiKey::Num7),
        Scancode::Num8 => Some(UiKey::Num8),
        Scancode::Num9 => Some(UiKey::Num9),
        Scancode::F1 => Some(UiKey::F1),
        Scancode::F2 => Some(UiKey::F2),
        Scancode::F3 => Some(UiKey::F3),
        Scancode::F4 => Some(UiKey::F4),
        Scancode::F5 => Some(UiKey::F5),
        Scancode::F6 => Some(UiKey::F6),
        Scancode::F7 => Some(UiKey::F7),
        Scancode::F8 => Some(UiKey::F8),
        Scancode::F9 => Some(UiKey::F9),
        Scancode::F10 => Some(UiKey::F10),
        Scancode::F11 => Some(UiKey::F11),
        Scancode::F12 => Some(UiKey::F12),
        Scancode::Up => Some(UiKey::ArrowUp),
        Scancode::Down => Some(UiKey::ArrowDown),
        Scancode::Left => Some(UiKey::ArrowLeft),
        Scancode::Right => Some(UiKey::ArrowRight),
        Scancode::Return => Some(UiKey::Enter),
        Scancode::Escape => Some(UiKey::Escape),
        Scancode::Backspace => Some(UiKey::Backspace),
        Scancode::Tab => Some(UiKey::Tab),
        Scancode::Space => Some(UiKey::Space),
        _ => None,
    }
}

/// Maps a physical scancode into the UI toolkit's vocabulary.
pub fn into_egui_physical_key(sc: Scancode) -> (r: Option<UiKey>)
    ensures
        r == ui_key_of_scancode(sc),
{
    match sc {
        Scancode::A => Some(UiKey::A),
        Scancode::B => Some(UiKey::B),
        Scancode::C => Some(UiKey::C),
        Scancode::D => Some(UiKey::D),
        Scancode::E => Some(UiKey::E),
        Scancode::F => Some(UiKey::F),
        Scancode::G => Some(UiKey::G),
        Scancode::H => Some(UiKey::H),
        Scancode::I => Some(UiKey::I),
        Scancode::J => Some(UiKey::J),
        Scancode::K => Some(UiKey::K),
        Scancode::L => Some(UiKey::L),
        Scancode::M => Some(UiKey::M),
        Scancode::N => Some(UiKey::N),
        Scancode::O => Some(UiKey::O),
        Scancode::P => Some(UiKey::P),
        Scancode::Q => Some(UiKey::Q),
        Scancode::R => Some(UiKey::R),
        Scancode::S => Some(UiKey::S),
        Scancode::T => Some(UiKey::T),
        Scancode::U => Some(UiKey::U),
        Scancode::V => Some(UiKey::V),
        Scancode::W => Some(UiKey::W),
        Scancode::X => Some(UiKey::X),
        Scancode::Y => Some(UiKey::Y),
        Scancode::Z => Some(UiKey::Z),
        Scancode::Num0 => Some(UiKey::Num0),
        Scancode::Num1 => Some(UiKey::Num1),
        Scancode::Num2 => Some(UiKey::Num2),
        Scancode::Num3 => Some(UiKey::Num3),
        Scancode::Num4 => Some(UiKey::Num4),
        Scancode::Num5 => Some(UiKey::Num5),
        Scancode::Num6 => Some(UiKey::Num6),
        Scancode::Num7 => Some(UiKey::Num7),
        Scancode::Num8 => Some(UiKey::Num8),
        Scancode::Num9 => Some(UiKey::Num9),
        Scancode::F1 => Some(UiKey::F1),
        Scancode::F2 => Some(UiKey::F2),
        Scancode::F3 => Some(UiKey::F3),
        Scancode::F4 => Some(UiKey::F4),
        Scancode::F5 => Some(UiKey::F5),
        Scancode::F6 => Some(UiKey::F6),
        Scancode::F7 => Some(UiKey::F7),
        Scancode::F8 => Some(UiKey::F8),
        Scancode::F9 => Some(UiKey::F9),
        Scancode::F10 => Some(UiKey::F10),
        Scancode::F11 => Some(UiKey::F11),
        Scancode::F12 => Some(UiKey::F12),
        Scancode::Up => Some(UiKey::ArrowUp),
        Scancode::Down => Some(UiKey::ArrowDown),
        Scancode::Left => Some(UiKey::ArrowLeft),
        Scancode::Right => Some(UiKey::ArrowRight),
        Scancode::Return => Some(UiKey::Enter),
        Scancode::Escape => Some(UiKey::Escape),
        Scancode::Backspace => Some(UiKey::Backspace),
        Scancode::Tab => Some(UiKey::Tab),
        Scancode::Space => Some(UiKey::Space),
        _ => None,
    }
}

/// The UI pointer button a native button stands for; unknown buttons are
/// dropped.
pub open spec fn ui_button_of(btn: crate::native::MouseButton) -> Option<UiPointerButton> {
    match btn {
        crate::native::MouseButton::Left => Some(UiPointerButton::Primary),
        crate::native::MouseButton::Middle => Some(UiPointerButton::Middle),
        crate::native::MouseButton::Right => Some(UiPointerButton::Secondary),
        crate::native::MouseButton::Unknown => None,
        crate::native::MouseButton::X1 => Some(UiPointerButton::Extra1),
        crate::native::MouseButton::X2 => Some(UiPointerButton::Extra2),
    }
}

/// Maps a native pointer button into the UI toolkit's vocabulary.
pub fn into_egui_button(btn: crate::native::MouseButton) -> (r: Option<UiPointerButton>)
    ensures
        r == ui_button_of(btn),
{
    match btn {
        crate::native::MouseButton::Left => Some(UiPointerButton::Primary),
        crate::native::MouseButton::Middle => Some(UiPointerButton::Middle),
        crate::native::MouseButton::Right => Some(UiPointerButton::Secondary),
        crate::native::MouseButton::Unknown => None,
        crate::native::MouseButton::X1 => Some(UiPointerButton::Extra1),
        crate::native::MouseButton::X2 => Some(UiPointerButton::Extra2),
    }
}

/// The UI modifier set carried by a native modifier bitmask. Control and
/// the platform key both set `command`, as the toolkit expects.
pub open spec fn ui_modifiers_of(m: Mod) -> UiModifiers {
    UiModifiers {
        ctrl: m.lctrl || m.rctrl,
        shift: m.lshift || m.rshift,
        alt: m.lalt || m.ralt,
        mac_cmd: m.lgui || m.rgui,
        command: m.lctrl || m.rctrl || m.lgui || m.rgui,
    }
}

/// Collapses a native modifier bitmask into the UI toolkit's set.
pub fn into_egui_modifiers(m: Mod) -> (r: UiModifiers)
    ensures
        r == ui_modifiers_of(m),
{
    UiModifiers {
        ctrl: m.lctrl || m.rctrl,
        shift: m.lshift || m.rshift,
        alt: m.lalt || m.ralt,
        mac_cmd: m.lgui || m.rgui,
        command: m.lctrl || m.rctrl || m.lgui || m.rgui,
    }
}


/// The main key record queued for one native key event: one `Key` entry
/// for a mapped key, nothing for an unmapped one.
pub open spec fn key_event_seq(
    keycode: Keycode,
    scancode: Scancode,
    keymod: Mod,
    pressed: bool,
    repeat: bool,
) -> Seq<UiEvent> {
    match ui_key_of_keycode(keycode) {
        Some(k) => seq![
            UiEvent::Key {
                key: k,
                physical_key: ui_key_of_scancode(scancode),
                pressed,
                repeat,
                modifiers: ui_modifiers_of(keymod),
            },
        ],
        None => Seq::empty(),
    }
}

/// The input records one native event queues for the UI toolkit, given the
/// modifier set the integration currently holds.
pub open spec fn ui_events_of(m: UiModifiers, e: NativeEvent, ctx: UiCtx) -> Seq<UiEvent> {
    match e {
        NativeEvent::Window(w) => match w {
            WindowEvent::Leave => seq![UiEvent::PointerGone],
            WindowEvent::TakeFocus => seq![UiEvent::WindowFocused(true)],
            WindowEvent::FocusGained => seq![UiEvent::WindowFocused(true)],
            WindowEvent::FocusLost => seq![UiEvent::WindowFocused(false)],
            _ => Seq::empty(),
        },
        NativeEvent::MouseButtonDown { button, x, y } => match ui_button_of(button) {
            Some(b) => seq![
                UiEvent::PointerButton { x, y, button: b, pressed: true, modifiers: m },
            ],
            None => Seq::empty(),
        },
        NativeEvent::MouseButtonUp { button, x, y } => match ui_button_of(button) {
            Some(b) => seq![
                UiEvent::PointerButton { x, y, button: b, pressed: false, modifiers: m },
            ],
            None => Seq::empty(),
        },
        NativeEvent::MouseMotion { x, y } => seq![UiEvent::PointerMoved { x, y }],
        NativeEvent::MouseWheel { x, y, .. } => {
            if m.command {
                seq![UiEvent::Zoom { lines: y as i64 }]
            } else if m.shift {
                seq![UiEvent::MouseWheel { dx: (x + y) as i64, dy: 0, modifiers: m }]
            } else {
                seq![UiEvent::MouseWheel { dx: x as i64, dy: y as i64, modifiers: m }]
            }
        },
        NativeEvent::KeyUp { keycode, scancode, keymod, repeat } => {
            key_event_seq(keycode, scancode, keymod, false, repeat)
        },
        NativeEvent::KeyDown { keycode, scancode, keymod, repeat } => {
            let main = key_event_seq(keycode, scancode, keymod, true, repeat);
            let extra = if m.command && keycode is C {
                seq![UiEvent::Copy]
            } else if m.command && keycode is X {
                seq![UiEvent::Cut]
            } else if m.command && keycode is V {
                match ctx.clipboard_text {
                    Some(t) => seq![UiEvent::Text(t)],
                    None => Seq::<UiEvent>::empty(),
                }
            } else {
                Seq::<UiEvent>::empty()
            };
            main + extra
        },
        NativeEvent::TextInput { text } => {
            if text@.len() > 0 && !(m.ctrl || m.command || m.mac_cmd) {
                seq![UiEvent::Text(text)]
            } else {
                Seq::empty()
            }
        },
        _ => Seq::empty(),
    }
}

/// The consumed/repaint verdict one native event draws from the UI, given
/// the toolkit's own answers.
pub open spec fn ui_response_of(m: UiModifiers, e: NativeEvent, ctx: UiCtx) -> EventResponse {
    match e {
        NativeEvent::Window(w) => match w {
            WindowEvent::HitTest => EventResponse { consumed: false, repaint: false },
            WindowEvent::IccProfChanged => EventResponse { consumed: false, repaint: false },
            WindowEvent::DisplayChanged(_) => EventResponse { consumed: false, repaint: false },
            _ => EventResponse { consumed: false, repaint: true },
        },
        NativeEvent::MouseButtonDown { button, .. } => match ui_button_of(button) {
            Some(_) => EventResponse { consumed: ctx.wants_pointer_input, repaint: true },
            None => EventResponse { consumed: false, repaint: false },
        },
        NativeEvent::MouseButtonUp { button, .. } => match ui_button_of(button) {
            Some(_) => EventResponse { consumed: ctx.wants_pointer_input, repaint: true },
            None => EventResponse { consumed: false, repaint: false },
        },
        NativeEvent::MouseMotion { .. } => EventResponse {
            consumed: ctx.is_using_pointer,
            repaint: true,
        },
        NativeEvent::MouseWheel { .. } => EventResponse {
            consumed: ctx.wants_pointer_input,
            repaint: true,
        },
        NativeEvent::KeyDown { keycode, .. } => match ui_key_of_keycode(keycode) {
            Some(k) => EventResponse {
                consumed: ctx.wants_keyboard_input || k is Tab,
                repaint: true,
            },
            None => EventResponse { consumed: false, repaint: false },
        },
        NativeEvent::KeyUp { keycode, .. } => match ui_key_of_keycode(keycode) {
            Some(k) => EventResponse {
                consumed: ctx.wants_keyboard_input || k is Tab,
                repaint: true,
            },
            None => EventResponse { consumed: false, repaint: false },
        },
        NativeEvent::TextInput { .. } => EventResponse { consumed: false, repaint: true },
        NativeEvent::DropFile { .. } => EventResponse { consumed: false, repaint: true },
        _ => EventResponse { consumed: false, repaint: false },
    }
}

/// Where the integration remembers the pointer after one native event.
pub open spec fn pointer_after(p: Option<(i32, i32)>, e: NativeEvent) -> Option<(i32, i32)> {
    match e {
        NativeEvent::MouseMotion { x, y } => Some((x, y)),
        NativeEvent::MouseButtonDown { button, x, y } => match ui_button_of(button) {
            Some(_) => Some((x, y)),
            None => p,
        },
        NativeEvent::MouseButtonUp { button, x, y } => match ui_button_of(button) {
            Some(_) => Some((x, y)),
            None => p,
        },
        NativeEvent::Window(w) => match w {
            WindowEvent::Leave => None,
            _ => p,
        },
        _ => p,
    }
}

/// The focus flag after one native event.
pub open spec fn focused_after(f: bool, e: NativeEvent) -> bool {
    match e {
        NativeEvent::Window(w) => match w {
            WindowEvent::TakeFocus => true,
            WindowEvent::FocusGained => true,
            WindowEvent::FocusLost => false,
            _ => f,
        },
        _ => f,
    }
}

/// The dropped-file list after one native event.
pub open spec fn dropped_after(d: Seq<String>, e: NativeEvent) -> Seq<String> {
    match e {
        NativeEvent::DropFile { filename } => d.push(filename),
        _ => d,
    }
}

/// Cursor shapes the UI toolkit may request.
#[derive(Clone, Copy, Debug, PartialEq, Eq, Structural)]
pub enum CursorIcon {
    Crosshair,
    Default,
    Grab,
    Grabbing,
    Move,
    PointingHand,
    ResizeHorizontal,
    ResizeNeSw,
    ResizeNwSe,
    ResizeVertical,
    Text,
    NotAllowed,
    NoDrop,
    Wait,
    Other,
}

/// Cursor shapes the native layer can show.
#[derive(Clone, Copy, Debug, PartialEq, Eq, Structural)]
pub enum SystemCursor {
    Arrow,
    Crosshair,
    Hand,
    SizeAll,
    SizeWE,
    SizeNESW,
    SizeNWSE,
    SizeNS,
    IBeam,
    No,
    Wait,
}

/// The native cursor each toolkit cursor maps to; shapes the native layer
/// lacks fall back to the arrow.
pub open spec fn sdl_cursor_of(icon: CursorIcon) -> SystemCursor {
    match icon {
        CursorIcon::Crosshair => SystemCursor::Crosshair,
        CursorIcon::Default => SystemCursor::Arrow,
        CursorIcon::Grab => SystemCursor::Hand,
        CursorIcon::Grabbing => SystemCursor::SizeAll,
        CursorIcon::Move => SystemCursor::SizeAll,
        CursorIcon::PointingHand => SystemCursor::Hand,
        CursorIcon::ResizeHorizontal => SystemCursor::SizeWE,
        CursorIcon::ResizeNeSw => SystemCursor::SizeNESW,
        CursorIcon::ResizeNwSe => SystemCursor::SizeNWSE,
        CursorIcon::ResizeVertical => SystemCursor::SizeNS,
        CursorIcon::Text => SystemCursor::IBeam,
        CursorIcon::NotAllowed => SystemCursor::No,
        CursorIcon::NoDrop => SystemCursor::No,
        CursorIcon::Wait => SystemCursor::Wait,
        CursorIcon::Other => SystemCursor::Arrow,
    }
}

/// Maps a toolkit cursor into the native layer's vocabulary.
pub fn into_sdl2_cursor(icon: CursorIcon) -> (r: SystemCursor)
    ensures
        r == sdl_cursor_of(icon),
{
    match icon {
        CursorIcon::Crosshair => SystemCursor::Crosshair,
        CursorIcon::Default => SystemCursor::Arrow,
        CursorIcon::Grab => SystemCursor::Hand,
        CursorIcon::Grabbing => SystemCursor::SizeAll,
        CursorIcon::Move => SystemCursor::SizeAll,
        CursorIcon::PointingHand => SystemCursor::Hand,
        CursorIcon::ResizeHorizontal => SystemCursor::SizeWE,
        CursorIcon::ResizeNeSw => SystemCursor::SizeNESW,
        CursorIcon::ResizeNwSe => SystemCursor::SizeNWSE,
        CursorIcon::ResizeVertical => SystemCursor::SizeNS,
        CursorIcon::Text => SystemCursor::IBeam,
        CursorIcon::NotAllowed => SystemCursor::No,
        CursorIcon::NoDrop => SystemCursor::No,
        CursorIcon::Wait => SystemCursor::Wait,
        CursorIcon::Other => SystemCursor::Arrow,
    }
}

/// Side-effect requests the toolkit emits after a frame.
#[derive(Clone, Debug)]
pub enum OutputCommand {
    CopyText(String),
    CopyImage,
    OpenUrl(String),
}

/// What the toolkit reported after one frame: its side-effect requests
/// and the cursor it wants shown.
pub struct PlatformOutput {
    pub commands: Vec<OutputCommand>,
    pub cursor_icon: CursorIcon,
}

/// Actions the driver performs against the native layer for one platform
/// output.
#[derive(Clone, Debug)]
pub enum UiAction {
    SetClipboard(String),
    SetCursor(SystemCursor),
}

/// The clipboard writes a command list asks for, in order; image copies
/// and url-open requests are unsupported and dropped.
pub open spec fn clipboard_actions(cmds: Seq<OutputCommand>) -> Seq<UiAction>
    decreases cmds.len(),
{
    if cmds.len() == 0 {
        Seq::empty()
    } else {
        let head: Seq<UiAction> = match cmds[0] {
            OutputCommand::CopyText(t) => seq![UiAction::SetClipboard(t)],
            _ => Seq::empty(),
        };
        head + clipboard_actions(cmds.drop_first())
    }
}

/// Appending one command appends its clipboard writes.
proof fn lemma_clipboard_actions_push(cmds: Seq<OutputCommand>, x: OutputCommand)
    ensures
        clipboard_actions(cmds.push(x)) == clipboard_actions(cmds) + (match x {
            OutputCommand::CopyText(t) => seq![UiAction::SetClipboard(t)],
            _ => Seq::<UiAction>::empty(),
        }),
    decreases cmds.len(),
{
    let tail: Seq<UiAction> = match x {
        OutputCommand::CopyText(t) => seq![UiAction::SetClipboard(t)],
        _ => Seq::empty(),
    };
    if cmds.len() == 0 {
        let p = cmds.push(x);
        assert(p[0] == x);
        assert(p.drop_first() =~= Seq::<OutputCommand>::empty());
        assert(clipboard_actions(p.drop_first()) =~= Seq::<UiAction>::empty());
        assert(clipboard_actions(p) =~= tail);
        assert(clipboard_actions(cmds) =~= Seq::<UiAction>::empty());
        assert(clipboard_actions(cmds) + tail =~= tail);
    } else {
        lemma_clipboard_actions_push(cmds.drop_first(), x);
        assert(cmds.push(x).drop_first() =~= cmds.drop_first().push(x));
        assert(cmds.push(x)[0] == cmds[0]);
        let head: Seq<UiAction> = match cmds[0] {
            OutputCommand::CopyText(t) => seq![UiAction::SetClipboard(t)],
            _ => Seq::empty(),
        };
        assert(clipboard_actions(cmds) + tail =~= head + (clipboard_actions(cmds.drop_first())
            + tail));
    }
}

/// The cursor cache after the toolkit asked for `icon`: unchanged when it
/// already shows, set when the pointer is over the window, cleared when
/// it is not.
pub open spec fn cursor_after(st: State, icon: CursorIcon) -> Option<CursorIcon> {
    if st.current_cursor_icon == Some(icon) {
        st.current_cursor_icon
    } else if st.pointer_pos is Some {
        Some(icon)
    } else {
        None
    }
}

/// The native cursor change one request causes: none when cached or when
/// the pointer is away.
pub open spec fn cursor_actions(st: State, icon: CursorIcon) -> Seq<UiAction> {
    if st.current_cursor_icon == Some(icon) {
        Seq::empty()
    } else if st.pointer_pos is Some {
        seq![UiAction::SetCursor(sdl_cursor_of(icon))]
    } else {
        Seq::empty()
    }
}

/// Verifiable state of the UI integration: the input queue handed to the
/// toolkit each frame, the last pointer position, the stored modifier set
/// and the focus flag. Positions are device pixels; the toolkit's
/// point scaling happens outside.
pub struct State {
    pub events: Vec<UiEvent>,
    pub pointer_pos: Option<(i32, i32)>,
    pub modifiers: UiModifiers,
    pub focused: bool,
    pub dropped_files: Vec<String>,
    pub current_cursor_icon: Option<CursorIcon>,
}

impl State {
    /// A fresh integration: empty queue, no pointer, no focus.
    pub fn new() -> (r: State)
        ensures
            r.events@ == Seq::<UiEvent>::empty(),
            r.pointer_pos is None,
            r.modifiers == (UiModifiers {
                ctrl: false,
                shift: false,
                alt: false,
                mac_cmd: false,
                command: false,
            }),
            r.focused == false,
            r.dropped_files@ == Seq::<String>::empty(),
            r.current_cursor_icon is None,
    {
        State {
            events: Vec::new(),
            pointer_pos: None,
            modifiers: UiModifiers::none(),
            focused: false,
            dropped_files: Vec::new(),
            current_cursor_icon: None,
        }
    }

    /// The pointer position last reported by a native event, if the
    /// pointer is over the window.
    pub fn get_pointer_pos_in_points(&self) -> (r: Option<(i32, i32)>)
        ensures
            r == self.pointer_pos,
    {
        self.pointer_pos
    }

    /// Hands the queued input records to the toolkit and clears the queue.
    pub fn take_egui_input(&mut self) -> (r: Vec<UiEvent>)
        ensures
            r@ == old(self).events@,
            final(self).events@ == Seq::<UiEvent>::empty(),
            final(self).pointer_pos == old(self).pointer_pos,
            final(self).modifiers == old(self).modifiers,
            final(self).focused == old(self).focused,
            final(self).dropped_files@ == old(self).dropped_files@,
            final(self).current_cursor_icon == old(self).current_cursor_icon,
    {
        let mut taken: Vec<UiEvent> = Vec::new();
        core::mem::swap(&mut taken, &mut self.events);
        taken
    }

    /// Feeds one native event to the integration: queues the translated
    /// records, tracks pointer and focus, and reports the toolkit's
    /// consumed/repaint verdict.
    pub fn on_event(&mut self, event: &NativeEvent, ctx: &UiCtx) -> (r: EventResponse)
        ensures
            r == ui_response_of(old(self).modifiers, *event, *ctx),
            final(self).events@ == old(self).events@ + ui_events_of(
                old(self).modifiers,
                *event,
                *ctx,
            ),
            final(self).pointer_pos == pointer_after(old(self).pointer_pos, *event),
            final(self).focused == focused_after(old(self).focused, *event),
            final(self).dropped_files@ == dropped_after(old(self).dropped_files@, *event),
            final(self).current_cursor_icon == old(self).current_cursor_icon,
            final(self).modifiers == old(self).modifiers,
    {
        match event {
            NativeEvent::Window(w) => self.on_window_event(*w, event, ctx),
            NativeEvent::MouseButtonDown { button, x, y } => {
                self.on_mouse_button_event(*button, true, *x, *y, event, ctx)
            },
            NativeEvent::MouseButtonUp { button, x, y } => {
                self.on_mouse_button_event(*button, false, *x, *y, event, ctx)
            },
            NativeEvent::MouseMotion { x, y } => {
                self.pointer_pos = Some((*x, *y));
                self.events.push(UiEvent::PointerMoved { x: *x, y: *y });
                assert(self.events@ =~= old(self).events@ + ui_events_of(
                    old(self).modifiers, *event, *ctx));
                EventResponse { consumed: ctx.is_using_pointer, repaint: true }
            },
            NativeEvent::MouseWheel { x, y, .. } => {
                let dx: i64 = *x as i64;
                let dy: i64 = *y as i64;
                if self.modifiers.command {
                    self.events.push(UiEvent::Zoom { lines: dy });
                } else if self.modifiers.shift {
                    self.events.push(UiEvent::MouseWheel {
                        dx: dx + dy,
                        dy: 0,
                        modifiers: self.modifiers,
                    });
                } else {
                    self.events.push(UiEvent::MouseWheel { dx, dy, modifiers: self.modifiers });
                }
                assert(self.events@ =~= old(self).events@ + ui_events_of(
                    old(self).modifiers, *event, *ctx));
                EventResponse { consumed: ctx.wants_pointer_input, repaint: true }
            },
            NativeEvent::KeyUp { keycode, scancode, keymod, repeat } => {
                self.on_keyboard_event(*keycode, *scancode, *keymod, false, *repeat, event, ctx)
            },
            NativeEvent::KeyDown { keycode, scancode, keymod, repeat } => {
                let resp = self.on_keyboard_event(
                    *keycode,
                    *scancode,
                    *keymod,
                    true,
                    *repeat,
                    event,
                    ctx,
                );
                if self.modifiers.command && matches!(keycode, Keycode::C) {
                    self.events.push(UiEvent::Copy);
                } else if self.modifiers.command && matches!(keycode, Keycode::X) {
                    self.events.push(UiEvent::Cut);
                } else if self.modifiers.command && matches!(keycode, Keycode::V) {
                    match &ctx.clipboard_text {
                        Some(contents) => {
                            self.events.push(UiEvent::Text(contents.clone()));
                        },
                        None => {},
                    }
                }
                assert(self.events@ =~= old(self).events@ + ui_events_of(
                    old(self).modifiers, *event, *ctx));
                resp
            },
            NativeEvent::TextInput { text } => {
                if !text.as_str().is_empty() {
                    let is_cmd = self.modifiers.ctrl || self.modifiers.command
                        || self.modifiers.mac_cmd;
                    if !is_cmd {
                        self.events.push(UiEvent::Text(text.clone()));
                    }
                }
                assert(self.events@ =~= old(self).events@ + ui_events_of(
                    old(self).modifiers, *event, *ctx));
                EventResponse { consumed: false, repaint: true }
            },
            NativeEvent::DropFile { filename } => {
                self.dropped_files.push(filename.clone());
                assert(self.events@ =~= old(self).events@ + ui_events_of(
                    old(self).modifiers, *event, *ctx));
                EventResponse { consumed: false, repaint: true }
            },
            _ => {
                assert(self.events@ =~= old(self).events@ + ui_events_of(
                    old(self).modifiers, *event, *ctx));
                EventResponse { consumed: false, repaint: false }
            },
        }
    }

    /// Applies what the toolkit asked for after a frame: clipboard writes
    /// for each copy request, in order (image copies and url-open requests
    /// are unsupported and dropped), then the cursor change, if any.
    pub fn handle_platform_output(&mut self, output: PlatformOutput) -> (r: Vec<UiAction>)
        ensures
            r@ == clipboard_actions(output.commands@) + cursor_actions(
                *old(self),
                output.cursor_icon,
            ),
            final(self).current_cursor_icon == cursor_after(*old(self), output.cursor_icon),
            final(self).events@ == old(self).events@,
            final(self).pointer_pos == old(self).pointer_pos,
            final(self).modifiers == old(self).modifiers,
            final(self).focused == old(self).focused,
            final(self).dropped_files@ == old(self).dropped_files@,
    {
        let mut actions: Vec<UiAction> = Vec::new();
        let n = output.commands.len();
        let mut i: usize = 0;
        assert(output.commands@.take(0) =~= Seq::<OutputCommand>::empty());
        assert(clipboard_actions(output.commands@.take(0)) =~= Seq::<UiAction>::empty());
        while i < n
            invariant
                0 <= i <= n,
                n == output.commands@.len(),
                actions@ == clipboard_actions(output.commands@.take(i as int)),
            decreases n - i,
        {
            match &output.commands[i] {
                OutputCommand::CopyText(text) => {
                    actions.push(UiAction::SetClipboard(text.clone()));
                },
                OutputCommand::CopyImage => {},
                OutputCommand::OpenUrl(_) => {},
            }
            proof {
                lemma_clipboard_actions_push(
                    output.commands@.take(i as int),
                    output.commands@[i as int],
                );
                assert(output.commands@.take(i as int + 1) =~= output.commands@.take(
                    i as int,
                ).push(output.commands@[i as int]));
            }
            i += 1;
        }
        assert(output.commands@.take(n as int) =~= output.commands@);
        match self.set_cursor_icon(output.cursor_icon) {
            Some(cursor) => {
                actions.push(UiAction::SetCursor(cursor));
            },
            None => {},
        }
        assert(actions@ =~= clipboard_actions(output.commands@) + cursor_actions(
            *old(self),
            output.cursor_icon,
        ));
        actions
    }

    /// Decides whether the native cursor must change: not when the wanted
    /// shape is already shown, and not while the pointer is away — then
    /// the cache clears so the shape is set again when it returns.
    fn set_cursor_icon(&mut self, cursor_icon: CursorIcon) -> (r: Option<SystemCursor>)
        ensures
            final(self).current_cursor_icon == cursor_after(*old(self), cursor_icon),
            (match r {
                Some(c) => cursor_actions(*old(self), cursor_icon) == seq![
                    UiAction::SetCursor(c),
                ],
                None => cursor_actions(*old(self), cursor_icon) == Seq::<UiAction>::empty(),
            }),
            final(self).events@ == old(self).events@,
            final(self).pointer_pos == old(self).pointer_pos,
            final(self).modifiers == old(self).modifiers,
            final(self).focused == old(self).focused,
            final(self).dropped_files@ == old(self).dropped_files@,
    {
        match self.current_cursor_icon {
            Some(current) => {
                if current == cursor_icon {
                    return None;
                }
            },
            None => {},
        }
        if self.pointer_pos.is_some() {
            self.current_cursor_icon = Some(cursor_icon);
            Some(into_sdl2_cursor(cursor_icon))
        } else {
            self.current_cursor_icon = None;
            None
        }
    }

    /// Window sub-events: track pointer departure and focus changes; every
    /// visibility or geometry change asks for a repaint.
    fn on_window_event(
        &mut self,
        w: WindowEvent,
        event: &NativeEvent,
        ctx: &UiCtx,
    ) -> (r: EventResponse)
        requires
            *event matches NativeEvent::Window(ww) && ww == w,
        ensures
            r == ui_response_of(old(self).modifiers, *event, *ctx),
            final(self).events@ == old(self).events@ + ui_events_of(
                old(self).modifiers,
                *event,
                *ctx,
            ),
            final(self).pointer_pos == pointer_after(old(self).pointer_pos, *event),
            final(self).focused == focused_after(old(self).focused, *event),
            final(self).dropped_files@ == dropped_after(old(self).dropped_files@, *event),
            final(self).current_cursor_icon == old(self).current_cursor_icon,
            final(self).modifiers == old(self).modifiers,
    {
        let r = match w {
            WindowEvent::Leave => {
                self.pointer_pos = None;
                self.events.push(UiEvent::PointerGone);
                EventResponse { consumed: false, repaint: true }
            },
            WindowEvent::TakeFocus | WindowEvent::FocusGained => {
                self.focused = true;
                self.events.push(UiEvent::WindowFocused(true));
                EventResponse { consumed: false, repaint: true }
            },
            WindowEvent::FocusLost => {
                self.focused = false;
                self.events.push(UiEvent::WindowFocused(false));
                EventResponse { consumed: false, repaint: true }
            },
            WindowEvent::HitTest | WindowEvent::IccProfChanged | WindowEvent::DisplayChanged(
                _,
            ) => EventResponse { consumed: false, repaint: false },
            _ => EventResponse { consumed: false, repaint: true },
        };
        assert(self.events@ =~= old(self).events@ + ui_events_of(
            old(self).modifiers, *event, *ctx));
        r
    }

    /// Pointer button events: remember the position and queue the press
    /// for the toolkit; unknown buttons are dropped.
    fn on_mouse_button_event(
        &mut self,
        button: crate::native::MouseButton,
        pressed: bool,
        x: i32,
        y: i32,
        event: &NativeEvent,
        ctx: &UiCtx,
    ) -> (r: EventResponse)
        requires
            pressed ==> *event == (NativeEvent::MouseButtonDown { button, x, y }),
            !pressed ==> *event == (NativeEvent::MouseButtonUp { button, x, y }),
        ensures
            r == ui_response_of(old(self).modifiers, *event, *ctx),
            final(self).events@ == old(self).events@ + ui_events_of(
                old(self).modifiers,
                *event,
                *ctx,
            ),
            final(self).pointer_pos == pointer_after(old(self).pointer_pos, *event),
            final(self).focused == focused_after(old(self).focused, *event),
            final(self).dropped_files@ == dropped_after(old(self).dropped_files@, *event),
            final(self).current_cursor_icon == old(self).current_cursor_icon,
            final(self).modifiers == old(self).modifiers,
    {
        let b = match into_egui_button(button) {
            Some(b) => b,
            None => {
                assert(self.events@ =~= old(self).events@ + ui_events_of(
                    old(self).modifiers, *event, *ctx));
                return EventResponse { consumed: false, repaint: false };
            },
        };
        self.pointer_pos = Some((x, y));
        self.events.push(UiEvent::PointerButton {
            x,
            y,
            button: b,
            pressed,
            modifiers: self.modifiers,
        });
        assert(self.events@ =~= old(self).events@ + ui_events_of(
            old(self).modifiers, *event, *ctx));
        EventResponse { consumed: ctx.wants_pointer_input, repaint: true }
    }

    /// Key events: queue the mapped key for the toolkit; an unmapped key
    /// queues nothing. Tab always counts as consumed, because the toolkit
    /// uses it to move focus.
    fn on_keyboard_event(
        &mut self,
        keycode: Keycode,
        scancode: Scancode,
        keymod: Mod,
        pressed: bool,
        repeat: bool,
        event: &NativeEvent,
        ctx: &UiCtx,
    ) -> (r: EventResponse)
        requires
            pressed ==> *event == (NativeEvent::KeyDown { keycode, scancode, keymod, repeat }),
            !pressed ==> *event == (NativeEvent::KeyUp { keycode, scancode, keymod, repeat }),
        ensures
            r == ui_response_of(old(self).modifiers, *event, *ctx),
            final(self).events@ == old(self).events@ + key_event_seq(
                keycode,
                scancode,
                keymod,
                pressed,
                repeat,
            ),
            final(self).pointer_pos == old(self).pointer_pos,
            final(self).focused == old(self).focused,
            final(self).dropped_files@ == old(self).dropped_files@,
            final(self).current_cursor_icon == old(self).current_cursor_icon,
            final(self).modifiers == old(self).modifiers,
    {
        let key = match into_egui_key(keycode) {
            Some(key) => key,
            None => {
                assert(self.events@ =~= old(self).events@ + key_event_seq(
                    keycode, scancode, keymod, pressed, repeat));
                return EventResponse { consumed: false, repaint: false };
            },
        };
        self.events.push(UiEvent::Key {
            key,
            physical_key: into_egui_physical_key(scancode),
            pressed,
            repeat,
            modifiers: into_egui_modifiers(keymod),
        });
        assert(self.events@ =~= old(self).events@ + key_event_seq(
            keycode, scancode, keymod, pressed, repeat));
        let consumed = ctx.wants_keyboard_input || matches!(key, UiKey::Tab);
        EventResponse { consumed, repaint: true }
    }
}

} // verus!
