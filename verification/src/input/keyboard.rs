//! Translation of raw keyboard records into engine keyboard events.
//!
//! Two independent tables are applied to each record: the physical position
//! table (scancode to `Code`) and the logical meaning table (keycode to
//! `Key`). An unmapped physical position becomes `Code::Unidentified`; an
//! unmapped logical key produces no command at all, so a key this shell
//! does not know can never crash the loop or reach the engine half-formed.

use crate::app::AppCmd;
use crate::engine::InputEvent;
use crate::keys::{Code, Key, KeyState, KeyboardEvent, Location, Modifiers, NamedKey};
use crate::native::{Keycode, Mod, Scancode};
use vstd::prelude::*;

verus! {

/// Physical position table: which `Code` each scancode stands for.
pub open spec fn code_of_scancode(sc: Scancode) -> Code {
    match sc {
        Scancode::A => Code::KeyA,
        Scancode::B => Code::KeyB,
        Scancode::C => Code::KeyC,
        Scancode::D => Code::KeyD,
        Scancode::E => Code::KeyE,
        Scancode::F => Code::KeyF,
        Scancode::G => Code::KeyG,
        Scancode::H => Code::KeyH,
        Scancode::I => Code::KeyI,
        Scancode::J => Code::KeyJ,
        Scancode::K => Code::KeyK,
        Scancode::L => Code::KeyL,
        Scancode::M => Code::KeyM,
        Scancode::N => Code::KeyN,
        Scancode::O => Code::KeyO,
        Scancode::P => Code::KeyP,
        Scancode::Q => Code::KeyQ,
        Scancode::R => Code::KeyR,
        Scancode::S => Code::KeyS,
        Scancode::T => Code::KeyT,
        Scancode::U => Code::KeyU,
        Scancode::V => Code::KeyV,
        Scancode::W => Code::KeyW,
        Scancode::X => Code::KeyX,
        Scancode::Y => Code::KeyY,
        Scancode::Z => Code::KeyZ,
        Scancode::Num1 => Code::Digit1,
        Scancode::Num2 => Code::Digit2,
        Scancode::Num3 => Code::Digit3,
        Scancode::Num4 => Code::Digit4,
        Scancode::Num5 => Code::Digit5,
        Scancode::Num6 => Code::Digit6,
        Scancode::Num7 => Code::Digit7,
        Scancode::Num8 => Code::Digit8,
        Scancode::Num9 => Code::Digit9,
        Scancode::Num0 => Code::Digit0,
        Scancode::Return => Code::Enter,
        Scancode::Escape => Code::Escape,
        Scancode::Backspace => Code::Backspace,
        Scancode::Tab => Code::Tab,
        Scancode::Space => Code::Space,
        Scancode::Minus => Code::Minus,
        Scancode::Equals => Code::Equal,
        Scancode::LeftBracket => Code::BracketLeft,
        Scancode::RightBracket => Code::BracketRight,
        Scancode::Backslash => Code::Backslash,
        Scancode::Semicolon => Code::Semicolon,
        Scancode::Apostrophe => Code::Quote,
        Scancode::Grave => Code::Backquote,
        Scancode::Comma => Code::Comma,
        Scancode::Period => Code::Period,
        Scancode::Slash => Code::Slash,
        Scancode::CapsLock => Code::CapsLock,
        Scancode::F1 => Code::F1,
        Scancode::F2 => Code::F2,
        Scancode::F3 => Code::F3,
        Scancode::F4 => Code::F4,
        Scancode::F5 => Code::F5,
        Scancode::F6 => Code::F6,
        Scancode::F7 => Code::F7,
        Scancode::F8 => Code::F8,
        Scancode::F9 => Code::F9,
        Scancode::F10 => Code::F10,
        Scancode::F11 => Code::F11,
        Scancode::F12 => Code::F12,
        Scancode::PrintScreen => Code::PrintScreen,
        Scancode::ScrollLock => Code::ScrollLock,
        Scancode::Pause => Code::Pause,
        Scancode::Insert => Code::Insert,
        Scancode::Home => Code::Home,
        Scancode::PageUp => Code::PageUp,
        Scancode::Delete => Code::Delete,
        Scancode::End => Code::End,
        Scancode::PageDown => Code::PageDown,
        Scancode::Right => Code::ArrowRight,
        Scancode::Left => Code::ArrowLeft,
        Scancode::Down => Code::ArrowDown,
        Scancode::Up => Code::ArrowUp,
        Scancode::NumLockClear => Code::NumLock,
        Scancode::KpDivide => Code::NumpadDivide,
        Scancode::KpMultiply => Code::NumpadMultiply,
        Scancode::KpMinus => Code::NumpadSubtract,
        Scancode::KpPlus => Code::NumpadAdd,
        Scancode::KpEnter => Code::NumpadEnter,
        Scancode::Kp1 => Code::Numpad1,
        Scancode::Kp2 => Code::Numpad2,
        Scancode::Kp3 => Code::Numpad3,
        Scancode::Kp4 => Code::Numpad4,
        Scancode::Kp5 => Code::Numpad5,
        Scancode::Kp6 => Code::Numpad6,
        Scancode::Kp7 => Code::Numpad7,
        Scancode::Kp8 => Code::Numpad8,
        Scancode::Kp9 => Code::Numpad9,
        Scancode::Kp0 => Code::Numpad0,
        Scancode::KpPeriod => Code::NumpadDecimal,
        Scancode::LCtrl => Code::ControlLeft,
        Scancode::LShift => Code::ShiftLeft,
        Scancode::LAlt => Code::AltLeft,
        Scancode::LGui => Code::MetaLeft,
        Scancode::RCtrl => Code::ControlRight,
        Scancode::RShift => Code::ShiftRight,
        Scancode::RAlt => Code::AltRight,
        Scancode::RGui => Code::MetaRight,
        Scancode::Other => Code::Unidentified,
    }
}

/// Logical meaning table: which `Key` each keycode stands for, `None` for
/// the keycodes this shell leaves unmapped.
pub open spec fn key_of_keycode(kc: Keycode) -> Option<Key> {
    match kc {
        Keycode::A => Some(Key::Character('a')),
        Keycode::B => Some(Key::Character('b')),
        Keycode::C => Some(Key::Character('c')),
        Keycode::D => Some(Key::Character('d')),
        Keycode::E => Some(Key::Character('e')),
        Keycode::F => Some(Key::Character('f')),
        Keycode::G => Some(Key::Character('g')),
        Keycode::H => Some(Key::Character('h')),
        Keycode::I => Some(Key::Character('i')),
        Keycode::J => Some(Key::Character('j')),
        Keycode::K => Some(Key::Character('k')),
        Keycode::L => Some(Key::Character('l')),
        Keycode::M => Some(Key::Character('m')),
        Keycode::N => Some(Key::Character('n')),
        Keycode::O => Some(Key::Character('o')),
        Keycode::P => Some(Key::Character('p')),
        Keycode::Q => Some(Key::Character('q')),
        Keycode::R => Some(Key::Character('r')),
        Keycode::S => Some(Key::Character('s')),
        Keycode::T => Some(Key::Character('t')),
        Keycode::U => Some(Key::Character('u')),
        Keycode::V => Some(Key::Character('v')),
        Keycode::W => Some(Key::Character('w')),
        Keycode::X => Some(Key::Character('x')),
        Keycode::Y => Some(Key::Character('y')),
        Keycode::Z => Some(Key::Character('z')),
        Keycode::Num1 => Some(Key::Character('1')),
        Keycode::Num2 => Some(Key::Character('2')),
        Keycode::Num3 => Some(Key::Character('3')),
        Keycode::Num4 => Some(Key::Character('4')),
        Keycode::Num5 => Some(Key::Character('5')),
        Keycode::Num6 => Some(Key::Character('6')),
        Keycode::Num7 => Some(Key::Character('7')),
        Keycode::Num8 => Some(Key::Character('8')),
        Keycode::Num9 => Some(Key::Character('9')),
        Keycode::Num0 => Some(Key::Character('0')),
        Keycode::Space => Some(Key::Character(' ')),
        Keycode::Return => Some(Key::Named(NamedKey::Enter)),
        Keycode::Escape => Some(Key::Named(NamedKey::Escape)),
        Keycode::Backspace => Some(Key::Named(NamedKey::Backspace)),
        Keycode::Tab => Some(Key::Named(NamedKey::Tab)),
        Keycode::Minus => Some(Key::Character('-')),
        Keycode::Equals => Some(Key::Character('=')),
        Keycode::LeftBracket => Some(Key::Character('[')),
        Keycode::RightBracket => Some(Key::Character(']')),
        Keycode::Backslash => Some(Key::Character('\\')),
        Keycode::Semicolon => Some(Key::Character(';')),
        Keycode::Comma => Some(Key::Character(',')),
        Keycode::Period => Some(Key::Character('.')),
        Keycode::Slash => Some(Key::Character('/')),
        Keycode::CapsLock => Some(Key::Named(NamedKey::CapsLock)),
        Keycode::F1 => Some(Key::Named(NamedKey::F1)),
        Keycode::F2 => Some(Key::Named(NamedKey::F2)),
        Keycode::F3 => Some(Key::Named(NamedKey::F3)),
        Keycode::F4 => Some(Key::Named(NamedKey::F4)),
        Keycode::F5 => Some(Key::Named(NamedKey::F5)),
        Keycode::F6 => Some(Key::Named(NamedKey::F6)),
        Keycode::F7 => Some(Key::Named(NamedKey::F7)),
        Keycode::F8 => Some(Key::Named(NamedKey::F8)),
        Keycode::F9 => Some(Key::Named(NamedKey::F9)),
        Keycode::F10 => Some(Key::Named(NamedKey::F10)),
        Keycode::F11 => Some(Key::Named(NamedKey::F11)),
        Keycode::F12 => Some(Key::Named(NamedKey::F12)),
        Keycode::PrintScreen => Some(Key::Named(NamedKey::PrintScreen)),
        Keycode::ScrollLock => Some(Key::Named(NamedKey::ScrollLock)),
        Keycode::Pause => Some(Key::Named(NamedKey::Pause)),
        Keycode::Insert => Some(Key::Named(NamedKey::Insert)),
        Keycode::Home => Some(Key::Named(NamedKey::Home)),
        Keycode::PageUp => Some(Key::Named(NamedKey::PageUp)),
        Keycode::Delete => Some(Key::Named(NamedKey::Delete)),
        Keycode::End => Some(Key::Named(NamedKey::End)),
        Keycode::PageDown => Some(Key::Named(NamedKey::PageDown)),
        Keycode::Right => Some(Key::Named(NamedKey::ArrowRight)),
        Keycode::Left => Some(Key::Named(NamedKey::ArrowLeft)),
        Keycode::Down => Some(Key::Named(NamedKey::ArrowDown)),
        Keycode::Up => Some(Key::Named(NamedKey::ArrowUp)),
        Keycode::NumLockClear => Some(Key::Named(NamedKey::NumLock)),
        Keycode::KpDivide => Some(Key::Character('/')),
        Keycode::KpMultiply => Some(Key::Character('*')),
        Keycode::KpMinus => Some(Key::Character('-')),
        Keycode::KpPlus => Some(Key::Character('+')),
        Keycode::KpEnter => Some(Key::Named(NamedKey::Enter)),
        Keycode::Kp1 => Some(Key::Character('1')),
        Keycode::Kp2 => Some(Key::Character('2')),
        Keycode::Kp3 => Some(Key::Character('3')),
        Keycode::Kp4 => Some(Key::Character('4')),
        Keycode::Kp5 => Some(Key::Character('5')),
        Keycode::Kp6 => Some(Key::Character('6')),
        Keycode::Kp7 => Some(Key::Character('7')),
        Keycode::Kp8 => Some(Key::Character('8')),
        Keycode::Kp9 => Some(Key::Character('9')),
        Keycode::Kp0 => Some(Key::Character('0')),
        Keycode::KpPeriod => Some(Key::Character('.')),
        Keycode::LCtrl => Some(Key::Named(NamedKey::Control)),
        Keycode::LShift => Some(Key::Named(NamedKey::Shift)),
        Keycode::LAlt => Some(Key::Named(NamedKey::Alt)),
        Keycode::LGui => Some(Key::Named(NamedKey::Meta)),
        Keycode::RCtrl => Some(Key::Named(NamedKey::Control)),
        Keycode::RShift => Some(Key::Named(NamedKey::Shift)),
        Keycode::RAlt => Some(Key::Named(NamedKey::Alt)),
        Keycode::RGui => Some(Key::Named(NamedKey::Meta)),
        Keycode::Apostrophe => None,
        Keycode::Grave => None,
        Keycode::Other => None,
    }
}

/// The engine modifier set carried by a native modifier bitmask: each side
/// pair collapses to one flag.
pub open spec fn modifiers_of_mod(m: Mod) -> Modifiers {
    Modifiers {
        control: m.lctrl || m.rctrl,
        shift: m.lshift || m.rshift,
        alt: m.lalt || m.ralt,
        meta: m.lgui || m.rgui,
    }
}

/// The keyboard event assembled from one native key record, `None` when the
/// logical key is unmapped.
pub open spec fn keyboard_event_of(kc: Keycode, sc: Scancode, m: Mod, down: bool, repeat: bool) -> Option<
    KeyboardEvent,
> {
    match key_of_keycode(kc) {
        Some(key) => Some(
            KeyboardEvent {
                state: if down { KeyState::Down } else { KeyState::Up },
                key,
                code: code_of_scancode(sc),
                location: Location::Standard,
                modifiers: modifiers_of_mod(m),
                repeat,
                is_composing: false,
            },
        ),
        None => None,
    }
}

/// Maps a physical scancode through the position table.
pub fn sdl_scancode_to_code(sc: Scancode) -> (r: Code)
    ensures
        r == code_of_scancode(sc),
{
    match sc {
        Scancode::A => Code::KeyA,
        Scancode::B => Code::KeyB,
        Scancode::C => Code::KeyC,
        Scancode::D => Code::KeyD,
        Scancode::E => Code::KeyE,
        Scancode::F => Code::KeyF,
        Scancode::G => Code::KeyG,
        Scancode::H => Code::KeyH,
        Scancode::I => Code::KeyI,
        Scancode::J => Code::KeyJ,
        Scancode::K => Code::KeyK,
        Scancode::L => Code::KeyL,
        Scancode::M => Code::KeyM,
        Scancode::N => Code::KeyN,
        Scancode::O => Code::KeyO,
        Scancode::P => Code::KeyP,
        Scancode::Q => Code::KeyQ,
        Scancode::R => Code::KeyR,
        Scancode::S => Code::KeyS,
        Scancode::T => Code::KeyT,
        Scancode::U => Code::KeyU,
        Scancode::V => Code::KeyV,
        Scancode::W => Code::KeyW,
        Scancode::X => Code::KeyX,
        Scancode::Y => Code::KeyY,
        Scancode::Z => Code::KeyZ,
        Scancode::Num1 => Code::Digit1,
        Scancode::Num2 => Code::Digit2,
        Scancode::Num3 => Code::Digit3,
        Scancode::Num4 => Code::Digit4,
        Scancode::Num5 => Code::Digit5,
        Scancode::Num6 => Code::Digit6,
        Scancode::Num7 => Code::Digit7,
        Scancode::Num8 => Code::Digit8,
        Scancode::Num9 => Code::Digit9,
        Scancode::Num0 => Code::Digit0,
        Scancode::Return => Code::Enter,
        Scancode::Escape => Code::Escape,
        Scancode::Backspace => Code::Backspace,
        Scancode::Tab => Code::Tab,
        Scancode::Space => Code::Space,
        Scancode::Minus => Code::Minus,
        Scancode::Equals => Code::Equal,
        Scancode::LeftBracket => Code::BracketLeft,
        Scancode::RightBracket => Code::BracketRight,
        Scancode::Backslash => Code::Backslash,
        Scancode::Semicolon => Code::Semicolon,
        Scancode::Apostrophe => Code::Quote,
        Scancode::Grave => Code::Backquote,
        Scancode::Comma => Code::Comma,
        Scancode::Period => Code::Period,
        Scancode::Slash => Code::Slash,
        Scancode::CapsLock => Code::CapsLock,
        Scancode::F1 => Code::F1,
        Scancode::F2 => Code::F2,
        Scancode::F3 => Code::F3,
        Scancode::F4 => Code::F4,
        Scancode::F5 => Code::F5,
        Scancode::F6 => Code::F6,
        Scancode::F7 => Code::F7,
        Scancode::F8 => Code::F8,
        Scancode::F9 => Code::F9,
        Scancode::F10 => Code::F10,
        Scancode::F11 => Code::F11,
        Scancode::F12 => Code::F12,
        Scancode::PrintScreen => Code::PrintScreen,
        Scancode::ScrollLock => Code::ScrollLock,
        Scancode::Pause => Code::Pause,
        Scancode::Insert => Code::Insert,
        Scancode::Home => Code::Home,
        Scancode::PageUp => Code::PageUp,
        Scancode::Delete => Code::Delete,
        Scancode::End => Code::End,
        Scancode::PageDown => Code::PageDown,
        Scancode::Right => Code::ArrowRight,
        Scancode::Left => Code::ArrowLeft,
        Scancode::Down => Code::ArrowDown,
        Scancode::Up => Code::ArrowUp,
        Scancode::NumLockClear => Code::NumLock,
        Scancode::KpDivide => Code::NumpadDivide,
        Scancode::KpMultiply => Code::NumpadMultiply,
        Scancode::KpMinus => Code::NumpadSubtract,
        Scancode::KpPlus => Code::NumpadAdd,
        Scancode::KpEnter => Code::NumpadEnter,
        Scancode::Kp1 => Code::Numpad1,
        Scancode::Kp2 => Code::Numpad2,
        Scancode::Kp3 => Code::Numpad3,
        Scancode::Kp4 => Code::Numpad4,
        Scancode::Kp5 => Code::Numpad5,
        Scancode::Kp6 => Code::Numpad6,
        Scancode::Kp7 => Code::Numpad7,
        Scancode::Kp8 => Code::Numpad8,
        Scancode::Kp9 => Code::Numpad9,
        Scancode::Kp0 => Code::Numpad0,
        Scancode::KpPeriod => Code::NumpadDecimal,
        Scancode::LCtrl => Code::ControlLeft,
        Scancode::LShift => Code::ShiftLeft,
        Scancode::LAlt => Code::AltLeft,
        Scancode::LGui => Code::MetaLeft,
        Scancode::RCtrl => Code::ControlRight,
        Scancode::RShift => Code::ShiftRight,
        Scancode::RAlt => Code::AltRight,
        Scancode::RGui => Code::MetaRight,
        Scancode::Other => Code::Unidentified,
    }
}

/// Maps a layout keycode through the meaning table; unmapped keys yield
/// `None` and are dropped by the caller rather than crashing.
pub fn sdl_keycode_to_key(kc: Keycode) -> (r: Option<Key>)
    ensures
        r == key_of_keycode(kc),
{
    match kc {
        Keycode::A => Some(Key::Character('a')),
        Keycode::B => Some(Key::Character('b')),
        Keycode::C => Some(Key::Character('c')),
        Keycode::D => Some(Key::Character('d')),
        Keycode::E => Some(Key::Character('e')),
        Keycode::F => Some(Key::Character('f')),
        Keycode::G => Some(Key::Character('g')),
        Keycode::H => Some(Key::Character('h')),
        Keycode::I => Some(Key::Character('i')),
        Keycode::J => Some(Key::Character('j')),
        Keycode::K => Some(Key::Character('k')),
        Keycode::L => Some(Key::Character('l')),
        Keycode::M => Some(Key::Character('m')),
        Keycode::N => Some(Key::Character('n')),
        Keycode::O => Some(Key::Character('o')),
        Keycode::P => Some(Key::Character('p')),
        Keycode::Q => Some(Key::Character('q')),
        Keycode::R => Some(Key::Character('r')),
        Keycode::S => Some(Key::Character('s')),
        Keycode::T => Some(Key::Character('t')),
        Keycode::U => Some(Key::Character('u')),
        Keycode::V => Some(Key::Character('v')),
        Keycode::W => Some(Key::Character('w')),
        Keycode::X => Some(Key::Character('x')),
        Keycode::Y => Some(Key::Character('y')),
        Keycode::Z => Some(Key::Character('z')),
        Keycode::Num1 => Some(Key::Character('1')),
        Keycode::Num2 => Some(Key::Character('2')),
        Keycode::Num3 => Some(Key::Character('3')),
        Keycode::Num4 => Some(Key::Character('4')),
        Keycode::Num5 => Some(Key::Character('5')),
        Keycode::Num6 => Some(Key::Character('6')),
        Keycode::Num7 => Some(Key::Character('7')),
        Keycode::Num8 => Some(Key::Character('8')),
        Keycode::Num9 => Some(Key::Character('9')),
        Keycode::Num0 => Some(Key::Character('0')),
        Keycode::Space => Some(Key::Character(' ')),
        Keycode::Return => Some(Key::Named(NamedKey::Enter)),
        Keycode::Escape => Some(Key::Named(NamedKey::Escape)),
        Keycode::Backspace => Some(Key::Named(NamedKey::Backspace)),
        Keycode::Tab => Some(Key::Named(NamedKey::Tab)),
        Keycode::Minus => Some(Key::Character('-')),
        Keycode::Equals => Some(Key::Character('=')),
        Keycode::LeftBracket => Some(Key::Character('[')),
        Keycode::RightBracket => Some(Key::Character(']')),
        Keycode::Backslash => Some(Key::Character('\\')),
        Keycode::Semicolon => Some(Key::Character(';')),
        Keycode::Comma => Some(Key::Character(',')),
        Keycode::Period => Some(Key::Character('.')),
        Keycode::Slash => Some(Key::Character('/')),
        Keycode::CapsLock => Some(Key::Named(NamedKey::CapsLock)),
        Keycode::F1 => Some(Key::Named(NamedKey::F1)),
        Keycode::F2 => Some(Key::Named(NamedKey::F2)),
        Keycode::F3 => Some(Key::Named(NamedKey::F3)),
        Keycode::F4 => Some(Key::Named(NamedKey::F4)),
        Keycode::F5 => Some(Key::Named(NamedKey::F5)),
        Keycode::F6 => Some(Key::Named(NamedKey::F6)),
        Keycode::F7 => Some(Key::Named(NamedKey::F7)),
        Keycode::F8 => Some(Key::Named(NamedKey::F8)),
        Keycode::F9 => Some(Key::Named(NamedKey::F9)),
        Keycode::F10 => Some(Key::Named(NamedKey::F10)),
        Keycode::F11 => Some(Key::Named(NamedKey::F11)),
        Keycode::F12 => Some(Key::Named(NamedKey::F12)),
        Keycode::PrintScreen => Some(Key::Named(NamedKey::PrintScreen)),
        Keycode::ScrollLock => Some(Key::Named(NamedKey::ScrollLock)),
        Keycode::Pause => Some(Key::Named(NamedKey::Pause)),
        Keycode::Insert => Some(Key::Named(NamedKey::Insert)),
        Keycode::Home => Some(Key::Named(NamedKey::Home)),
        Keycode::PageUp => Some(Key::Named(NamedKey::PageUp)),
        Keycode::Delete => Some(Key::Named(NamedKey::Delete)),
        Keycode::End => Some(Key::Named(NamedKey::End)),
        Keycode::PageDown => Some(Key::Named(NamedKey::PageDown)),
        Keycode::Right => Some(Key::Named(NamedKey::ArrowRight)),
        Keycode::Left => Some(Key::Named(NamedKey::ArrowLeft)),
        Keycode::Down => Some(Key::Named(NamedKey::ArrowDown)),
        Keycode::Up => Some(Key::Named(NamedKey::ArrowUp)),
        Keycode::NumLockClear => Some(Key::Named(NamedKey::NumLock)),
        Keycode::KpDivide => Some(Key::Character('/')),
        Keycode::KpMultiply => Some(Key::Character('*')),
        Keycode::KpMinus => Some(Key::Character('-')),
        Keycode::KpPlus => Some(Key::Character('+')),
        Keycode::KpEnter => Some(Key::Named(NamedKey::Enter)),
        Keycode::Kp1 => Some(Key::Character('1')),
        Keycode::Kp2 => Some(Key::Character('2')),
        Keycode::Kp3 => Some(Key::Character('3')),
        Keycode::Kp4 => Some(Key::Character('4')),
        Keycode::Kp5 => Some(Key::Character('5')),
        Keycode::Kp6 => Some(Key::Character('6')),
        Keycode::Kp7 => Some(Key::Character('7')),
        Keycode::Kp8 => Some(Key::Character('8')),
        Keycode::Kp9 => Some(Key::Character('9')),
        Keycode::Kp0 => Some(Key::Character('0')),
        Keycode::KpPeriod => Some(Key::Character('.')),
        Keycode::LCtrl => Some(Key::Named(NamedKey::Control)),
        Keycode::LShift => Some(Key::Named(NamedKey::Shift)),
        Keycode::LAlt => Some(Key::Named(NamedKey::Alt)),
        Keycode::LGui => Some(Key::Named(NamedKey::Meta)),
        Keycode::RCtrl => Some(Key::Named(NamedKey::Control)),
        Keycode::RShift => Some(Key::Named(NamedKey::Shift)),
        Keycode::RAlt => Some(Key::Named(NamedKey::Alt)),
        Keycode::RGui => Some(Key::Named(NamedKey::Meta)),
        Keycode::Apostrophe => None,
        Keycode::Grave => None,
        Keycode::Other => None,
    }
}

/// Collapses the native per-side modifier flags into the engine's set.
pub fn sdl_mod_to_modifiers(m: Mod) -> (r: Modifiers)
    ensures
        r == modifiers_of_mod(m),
{
    Modifiers {
        control: m.lctrl || m.rctrl,
        shift: m.lshift || m.rshift,
        alt: m.lalt || m.ralt,
        meta: m.lgui || m.rgui,
    }
}

/// Translates one native key record into commands: exactly one forwarded
/// keyboard event for a mapped key, nothing for an unmapped one.
pub fn handle_keyboard(kc: Keycode, sc: Scancode, m: Mod, down: bool, repeat: bool) -> (r: Vec<
    AppCmd,
>)
    ensures
        match keyboard_event_of(kc, sc, m, down, repeat) {
            Some(ev) => r@ == seq![AppCmd::HandleInput(InputEvent::Keyboard(ev))],
            None => r@ == Seq::<AppCmd>::empty(),
        },
{
    let mut r: Vec<AppCmd> = Vec::new();
    let key = match sdl_keycode_to_key(kc) {
        Some(key) => key,
        None => {
            return r;
        },
    };
    let event = KeyboardEvent {
        state: if down { KeyState::Down } else { KeyState::Up },
        key,
        code: sdl_scancode_to_code(sc),
        location: Location::Standard,
        modifiers: sdl_mod_to_modifiers(m),
        repeat,
        is_composing: false,
    };
    r.push(AppCmd::HandleInput(InputEvent::Keyboard(event)));
    assert(r@ =~= seq![AppCmd::HandleInput(InputEvent::Keyboard(event))]);
    r
}

} // verus!
