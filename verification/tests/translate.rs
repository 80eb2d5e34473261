use retsurf::app::AppCmd;
use retsurf::egui_sdl2::{into_egui_button, into_egui_key, into_egui_physical_key, UiKey, UiPointerButton};
use retsurf::engine::{InputEvent, MouseButton as EngineButton, MouseButtonAction};
use retsurf::input::handler::AppInputHandler;
use retsurf::input::keyboard::{handle_keyboard, sdl_keycode_to_key, sdl_mod_to_modifiers, sdl_scancode_to_code};
use retsurf::input::mouse::{handle_mouse_button, handle_mouse_move, handle_mouse_wheel};
use retsurf::input::window::handle_window;
use retsurf::keys::{Code, Key, KeyState, NamedKey};
use retsurf::native::{Keycode, Mod, MouseButton, NativeEvent, Scancode, WindowEvent};

#[test]
fn scancode_table_maps_positions() {
    assert_eq!(sdl_scancode_to_code(Scancode::A), Code::KeyA);
    assert_eq!(sdl_scancode_to_code(Scancode::Num1), Code::Digit1);
    assert_eq!(sdl_scancode_to_code(Scancode::Num0), Code::Digit0);
    assert_eq!(sdl_scancode_to_code(Scancode::Apostrophe), Code::Quote);
    assert_eq!(sdl_scancode_to_code(Scancode::Grave), Code::Backquote);
    assert_eq!(sdl_scancode_to_code(Scancode::KpEnter), Code::NumpadEnter);
    assert_eq!(sdl_scancode_to_code(Scancode::Kp0), Code::Numpad0);
    assert_eq!(sdl_scancode_to_code(Scancode::LGui), Code::MetaLeft);
    assert_eq!(sdl_scancode_to_code(Scancode::RCtrl), Code::ControlRight);
    assert_eq!(sdl_scancode_to_code(Scancode::F12), Code::F12);
    assert_eq!(sdl_scancode_to_code(Scancode::Other), Code::Unidentified);
}

#[test]
fn keycode_table_maps_meanings() {
    assert_eq!(sdl_keycode_to_key(Keycode::A), Some(Key::Character('a')));
    assert_eq!(sdl_keycode_to_key(Keycode::Num7), Some(Key::Character('7')));
    assert_eq!(sdl_keycode_to_key(Keycode::Space), Some(Key::Character(' ')));
    assert_eq!(sdl_keycode_to_key(Keycode::Backslash), Some(Key::Character('\\')));
    assert_eq!(sdl_keycode_to_key(Keycode::Return), Some(Key::Named(NamedKey::Enter)));
    assert_eq!(sdl_keycode_to_key(Keycode::KpEnter), Some(Key::Named(NamedKey::Enter)));
    assert_eq!(sdl_keycode_to_key(Keycode::KpMultiply), Some(Key::Character('*')));
    assert_eq!(sdl_keycode_to_key(Keycode::LCtrl), Some(Key::Named(NamedKey::Control)));
    assert_eq!(sdl_keycode_to_key(Keycode::RGui), Some(Key::Named(NamedKey::Meta)));
    // Unmapped logical keys are dropped, never a crash.
    assert_eq!(sdl_keycode_to_key(Keycode::Apostrophe), None);
    assert_eq!(sdl_keycode_to_key(Keycode::Grave), None);
    assert_eq!(sdl_keycode_to_key(Keycode::Other), None);
}

#[test]
fn modifier_sides_collapse() {
    let mut m = Mod::empty();
    m.rctrl = true;
    m.lshift = true;
    let mods = sdl_mod_to_modifiers(m);
    assert!(mods.control && mods.shift && !mods.alt && !mods.meta);
}

#[test]
fn keyboard_record_builds_engine_event() {
    let cmds = handle_keyboard(Keycode::Q, Scancode::Q, Mod::empty(), true, false);
    assert_eq!(cmds.len(), 1);
    match &cmds[0] {
        AppCmd::HandleInput(InputEvent::Keyboard(ev)) => {
            assert_eq!(ev.key, Key::Character('q'));
            assert_eq!(ev.code, Code::KeyQ);
            assert_eq!(ev.state, KeyState::Down);
            assert!(!ev.repeat);
            assert!(!ev.is_composing);
        }
        other => panic!("unexpected command: {other:?}"),
    }
}

#[test]
fn unmapped_key_produces_no_command() {
    let cmds = handle_keyboard(Keycode::Grave, Scancode::Grave, Mod::empty(), true, false);
    assert!(cmds.is_empty());
}

#[test]
fn mouse_button_passes_raw_position() {
    let cmds = handle_mouse_button(MouseButton::X1, 3, 9, true);
    assert_eq!(cmds.len(), 1);
    match &cmds[0] {
        AppCmd::HandleInput(InputEvent::MouseButton(ev)) => {
            assert_eq!(ev.button, EngineButton::Back);
            assert_eq!(ev.action, MouseButtonAction::Down);
            assert_eq!((ev.point.x, ev.point.y), (3, 9));
        }
        other => panic!("unexpected command: {other:?}"),
    }
}

#[test]
fn unknown_mouse_button_is_dropped() {
    // Unmappable input is dropped rather than erroring, and never
    // reaches the engine.
    let cmds = handle_mouse_button(MouseButton::Unknown, 0, 0, false);
    assert!(cmds.is_empty());
    let cmds = handle_mouse_button(MouseButton::Unknown, 3, 9, true);
    assert!(cmds.is_empty());
}

#[test]
fn mouse_move_and_wheel_translate() {
    let mv = handle_mouse_move(-4, 17);
    match &mv[0] {
        AppCmd::HandleInput(InputEvent::MouseMove(ev)) => {
            assert_eq!((ev.point.x, ev.point.y), (-4, 17));
        }
        other => panic!("unexpected command: {other:?}"),
    }
    let wh = handle_mouse_wheel(1, -2, 100, 50);
    match &wh[0] {
        AppCmd::HandleInput(InputEvent::Wheel(ev)) => {
            assert_eq!((ev.delta.x, ev.delta.y), (1, -2));
            assert_eq!((ev.point.x, ev.point.y), (100, 50));
        }
        other => panic!("unexpected command: {other:?}"),
    }
}

#[test]
fn window_close_quits_and_resize_resizes() {
    let close = handle_window(WindowEvent::Close);
    assert_eq!(close.len(), 1);
    assert!(matches!(close[0], AppCmd::Quit));
    let resized = handle_window(WindowEvent::Resized(640, 480));
    assert!(matches!(resized[0], AppCmd::Resize(640, 480)));
    let changed = handle_window(WindowEvent::SizeChanged(10, 20));
    assert!(matches!(changed[0], AppCmd::Resize(10, 20)));
    assert!(handle_window(WindowEvent::FocusGained).is_empty());
    assert!(handle_window(WindowEvent::Moved(1, 2)).is_empty());
}

#[test]
fn input_handler_tracks_controllers() {
    let mut handler = AppInputHandler::new(vec![4, 9]);
    let none = handler.wait_event(&NativeEvent::ControllerDeviceAdded { which: 11 });
    assert!(none.is_empty());
    assert_eq!(handler.game_controllers, vec![4, 9, 11]);
    let none = handler.wait_event(&NativeEvent::ControllerDeviceRemoved { which: 9 });
    assert!(none.is_empty());
    assert_eq!(handler.game_controllers, vec![4, 11]);
}

#[test]
fn input_handler_quit_and_close() {
    let mut handler = AppInputHandler::new(Vec::new());
    let quit = handler.wait_event(&NativeEvent::Quit);
    assert_eq!(quit.len(), 1);
    assert!(matches!(quit[0], AppCmd::Quit));
    let close = handler.wait_event(&NativeEvent::Window(WindowEvent::Close));
    assert_eq!(close.len(), 1);
    assert!(matches!(close[0], AppCmd::Quit));
}

#[test]
fn ui_key_tables() {
    assert_eq!(into_egui_key(Keycode::Return), Some(UiKey::Enter));
    assert_eq!(into_egui_key(Keycode::Kp3), Some(UiKey::Num3));
    assert_eq!(into_egui_key(Keycode::LeftBracket), None);
    assert_eq!(into_egui_key(Keycode::LCtrl), None);
    assert_eq!(into_egui_physical_key(Scancode::Up), Some(UiKey::ArrowUp));
    assert_eq!(into_egui_physical_key(Scancode::KpEnter), None);
    assert_eq!(into_egui_button(MouseButton::Left), Some(UiPointerButton::Primary));
    assert_eq!(into_egui_button(MouseButton::Unknown), None);
}
