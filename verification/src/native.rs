//! Models of the native windowing layer's input records.
//!
//! The shell receives input from the platform's event queue: pointer and
//! wheel motion, raw keyboard records (a physical scancode, a layout-mapped
//! keycode and a modifier bitmask), window lifecycle events, game-controller
//! hot-plug notices, and one application-registered wake-up event posted by
//! the engine's background threads. The driver that owns the real queue
//! converts each record it dequeues into a `NativeEvent` before handing it
//! to this crate, so the whole translation layer is ordinary verified code.
//!
//! Coordinates are device pixels as the platform reports them.

use vstd::prelude::*;

verus! {

/// Physical key positions as the native layer reports them. `Other` stands for every position this shell does not map.
#[derive(Clone, Copy, Debug, PartialEq, Eq, Structural)]
pub enum Scancode {
    A,
    B,
    C,
    D,
    E,
    F,
    G,
    H,
    I,
    J,
    K,
    L,
    M,
    N,
    O,
    P,
    Q,
    R,
    S,
    T,
    U,
    V,
    W,
    X,
    Y,
    Z,
    Num1,
    Num2,
    Num3,
    Num4,
    Num5,
    Num6,
    Num7,
    Num8,
    Num9,
    Num0,
    Return,
    Escape,
    Backspace,
    Tab,
    Space,
    Minus,
    Equals,
    LeftBracket,
    RightBracket,
    Backslash,
    Semicolon,
    Apostrophe,
    Grave,
    Comma,
    Period,
    Slash,
    CapsLock,
    F1,
    F2,
    F3,
    F4,
    F5,
    F6,
    F7,
    F8,
    F9,
    F10,
    F11,
    F12,
    PrintScreen,
    ScrollLock,
    Pause,
    Insert,
    Home,
    PageUp,
    Delete,
    End,
    PageDown,
    Right,
    Left,
    Down,
    Up,
    NumLockClear,
    KpDivide,
    KpMultiply,
    KpMinus,
    KpPlus,
    KpEnter,
    Kp1,
    Kp2,
    Kp3,
    Kp4,
    Kp5,
    Kp6,
    Kp7,
    Kp8,
    Kp9,
    Kp0,
    KpPeriod,
    LCtrl,
    LShift,
    LAlt,
    LGui,
    RCtrl,
    RShift,
    RAlt,
    RGui,
    Other,
}

/// Layout-mapped key identities as the native layer reports them. `Other` stands for every identity this shell does not map.
#[derive(Clone, Copy, Debug, PartialEq, Eq, Structural)]
pub enum Keycode {
    A,
    B,
    C,
    D,
    E,
    F,
    G,
    H,
    I,
    J,
    K,
    L,
    M,
    N,
    O,
    P,
    Q,
    R,
    S,
    T,
    U,
    V,
    W,
    X,
    Y,
    Z,
    Num1,
    Num2,
    Num3,
    Num4,
    Num5,
    Num6,
    Num7,
    Num8,
    Num9,
    Num0,
    Return,
    Escape,
    Backspace,
    Tab,
    Space,
    Minus,
    Equals,
    LeftBracket,
    RightBracket,
    Backslash,
    Semicolon,
    Apostrophe,
    Grave,
    Comma,
    Period,
    Slash,
    CapsLock,
    F1,
    F2,
    F3,
    F4,
    F5,
    F6,
    F7,
    F8,
    F9,
    F10,
    F11,
    F12,
    PrintScreen,
    ScrollLock,
    Pause,
    Insert,
    Home,
    PageUp,
    Delete,
    End,
    PageDown,
    Right,
    Left,
    Down,
    Up,
    NumLockClear,
    KpDivide,
    KpMultiply,
    KpMinus,
    KpPlus,
    KpEnter,
    Kp1,
    Kp2,
    Kp3,
    Kp4,
    Kp5,
    Kp6,
    Kp7,
    Kp8,
    Kp9,
    Kp0,
    KpPeriod,
    LCtrl,
    LShift,
    LAlt,
    LGui,
    RCtrl,
    RShift,
    RAlt,
    RGui,
    Other,
}

/// Modifier state of the native keyboard, one flag per physical modifier.
#[derive(Clone, Copy, Debug, PartialEq, Eq, Structural)]
pub struct Mod {
    pub lctrl: bool,
    pub rctrl: bool,
    pub lshift: bool,
    pub rshift: bool,
    pub lalt: bool,
    pub ralt: bool,
    pub lgui: bool,
    pub rgui: bool,
}

impl Mod {
    /// No modifier held.
    pub fn empty() -> (r: Mod)
        ensures
            r == (Mod {
                lctrl: false, rctrl: false, lshift: false, rshift: false,
                lalt: false, ralt: false, lgui: false, rgui: false,
            }),
    {
        Mod {
            lctrl: false, rctrl: false, lshift: false, rshift: false,
            lalt: false, ralt: false, lgui: false, rgui: false,
        }
    }
}

/// Pointer buttons as the native layer reports them.
#[derive(Clone, Copy, Debug, PartialEq, Eq, Structural)]
pub enum MouseButton {
    Unknown,
    Left,
    Middle,
    Right,
    X1,
    X2,
}

/// Window sub-events. Only `Close`, `Resized` and `SizeChanged` produce commands; the rest are listed so the translator can state that it drops them.
#[derive(Clone, Copy, Debug, PartialEq, Eq, Structural)]
pub enum WindowEvent {
    Close,
    Resized(i32, i32),
    SizeChanged(i32, i32),
    Shown,
    Hidden,
    Exposed,
    Moved(i32, i32),
    Minimized,
    Maximized,
    Restored,
    Enter,
    Leave,
    FocusGained,
    FocusLost,
    TakeFocus,
    HitTest,
    IccProfChanged,
    DisplayChanged(i32),
}

/// One record dequeued from the native event queue.
#[derive(Clone, Debug)]
pub enum NativeEvent {
    Quit,
    Window(WindowEvent),
    MouseButtonDown { button: MouseButton, x: i32, y: i32 },
    MouseButtonUp { button: MouseButton, x: i32, y: i32 },
    MouseMotion { x: i32, y: i32 },
    MouseWheel { x: i32, y: i32, mouse_x: i32, mouse_y: i32 },
    KeyDown { keycode: Keycode, scancode: Scancode, keymod: Mod, repeat: bool },
    KeyUp { keycode: Keycode, scancode: Scancode, keymod: Mod, repeat: bool },
    TextInput { text: String },
    DropFile { filename: String },
    ControllerDeviceAdded { which: u32 },
    ControllerDeviceRemoved { which: u32 },
    ControllerButtonDown { button: u8 },
    ControllerButtonUp { button: u8 },
    User { code: i32 },
    Unknown,
}

} // verus!
