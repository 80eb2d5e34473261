use retsurf::app::AppCommand;
use retsurf::browser::BrowserCommand;
use retsurf::egui_sdl2::{CursorIcon, EventResponse, OutputCommand, PlatformOutput, State, SystemCursor, UiAction, UiCtx, UiEvent};
use retsurf::engine::InputEvent;
use retsurf::event::handler::AppEventHandler;
use retsurf::event::user::{handle_user, UserEvent, UserEventSender};
use retsurf::event::window::handle_window;
use retsurf::native::{MouseButton, NativeEvent, WindowEvent};
use retsurf::repaint::{compute_wait_timeout, WaitOutcome, WaitSpec};
use retsurf::ui::{AppUi, UiFrame};

fn quiet_ctx() -> UiCtx {
    UiCtx {
        is_using_pointer: false,
        wants_pointer_input: false,
        wants_keyboard_input: false,
        clipboard_text: None,
    }
}

#[test]
fn no_deadline_blocks_indefinitely() {
    // A missing deadline must always block without bound, so a timeout can
    // only ever be observed after a bounded wait was requested.
    assert_eq!(compute_wait_timeout(None), WaitSpec::Indefinite);
    assert_eq!(compute_wait_timeout(Some(16)), WaitSpec::BoundedMs(16));
}

#[test]
fn timeout_synthesizes_single_draw() {
    let mut handler = AppEventHandler::new(Vec::new());
    let mut ui = AppUi::new();
    let cmds = handler.wait(&mut ui, WaitSpec::BoundedMs(5), &WaitOutcome::TimedOut, &quiet_ctx());
    assert_eq!(cmds.len(), 1);
    assert!(matches!(cmds[0], AppCommand::Draw));
}

#[test]
fn close_event_emits_one_shutdown_and_no_input() {
    let mut handler = AppEventHandler::new(Vec::new());
    let mut ui = AppUi::new();
    let outcome = WaitOutcome::Event(NativeEvent::Window(WindowEvent::Close));
    let cmds = handler.wait(&mut ui, WaitSpec::Indefinite, &outcome, &quiet_ctx());
    let shutdowns = cmds.iter().filter(|c| matches!(c, AppCommand::Shutdown)).count();
    let forwards = cmds.iter().filter(|c| matches!(c, AppCommand::Browser(_))).count();
    assert_eq!(shutdowns, 1);
    assert_eq!(forwards, 0);
}

#[test]
fn quit_event_emits_exactly_shutdown() {
    let mut handler = AppEventHandler::new(Vec::new());
    let mut ui = AppUi::new();
    let outcome = WaitOutcome::Event(NativeEvent::Quit);
    let cmds = handler.wait(&mut ui, WaitSpec::Indefinite, &outcome, &quiet_ctx());
    assert_eq!(cmds.len(), 1);
    assert!(matches!(cmds[0], AppCommand::Shutdown));
}

#[test]
fn pointer_motion_is_chrome_relative() {
    let mut handler = AppEventHandler::new(Vec::new());
    let mut ui = AppUi::new();
    ui.toolbar_height = 30;
    let outcome = WaitOutcome::Event(NativeEvent::MouseMotion { x: 12, y: 70 });
    let cmds = handler.wait(&mut ui, WaitSpec::Indefinite, &outcome, &quiet_ctx());
    // Motion always asks for a UI repaint, then the translated event.
    assert_eq!(cmds.len(), 2);
    assert!(matches!(cmds[0], AppCommand::Draw));
    match &cmds[1] {
        AppCommand::Browser(BrowserCommand::HandleInput(InputEvent::MouseMove(ev))) => {
            assert_eq!((ev.point.x, ev.point.y), (12, 40));
        }
        other => panic!("unexpected command: {other:?}"),
    }
}

#[test]
fn negative_chrome_relative_positions_pass_through() {
    let mut handler = AppEventHandler::new(Vec::new());
    let mut ui = AppUi::new();
    ui.toolbar_height = 30;
    let outcome = WaitOutcome::Event(NativeEvent::MouseMotion { x: 0, y: 10 });
    let cmds = handler.wait(&mut ui, WaitSpec::Indefinite, &outcome, &quiet_ctx());
    match &cmds[1] {
        AppCommand::Browser(BrowserCommand::HandleInput(InputEvent::MouseMove(ev))) => {
            // Exactly y - h, never clamped.
            assert_eq!(ev.point.y, -20);
        }
        other => panic!("unexpected command: {other:?}"),
    }
}

#[test]
fn chrome_consumes_toolbar_clicks_but_never_content_clicks() {
    let mut handler = AppEventHandler::new(Vec::new());
    let mut ui = AppUi::new();
    ui.toolbar_height = 30;
    let wants = UiCtx { wants_pointer_input: true, ..quiet_ctx() };
    // Click over the toolbar: consumed, only the draw request comes out.
    let outcome = WaitOutcome::Event(NativeEvent::MouseButtonDown { button: MouseButton::Left, x: 5, y: 10 });
    let cmds = handler.wait(&mut ui, WaitSpec::Indefinite, &outcome, &wants);
    assert_eq!(cmds.len(), 1);
    assert!(matches!(cmds[0], AppCommand::Draw));
    // Click over page content: forwarded even though the toolkit wants it.
    let outcome = WaitOutcome::Event(NativeEvent::MouseButtonDown { button: MouseButton::Left, x: 5, y: 200 });
    let cmds = handler.wait(&mut ui, WaitSpec::Indefinite, &outcome, &wants);
    assert_eq!(cmds.len(), 2);
    assert!(matches!(cmds[0], AppCommand::Draw));
    assert!(matches!(&cmds[1], AppCommand::Browser(BrowserCommand::HandleInput(_))));
}

#[test]
fn wake_up_codes() {
    assert!(matches!(UserEvent::from_code(0), UserEvent::BrowserWakeup));
    assert!(matches!(UserEvent::from_code(1), UserEvent::BrowserFrameReady));
    assert_eq!(UserEvent::BrowserWakeup.code(), 0);
    assert_eq!(UserEvent::BrowserFrameReady.code(), 1);
    assert!(handle_user(0).is_none());
    assert!(matches!(handle_user(1), Some(AppCommand::Draw)));
}

#[test]
fn window_translation_full_loop() {
    assert!(matches!(handle_window(WindowEvent::Close), Some(AppCommand::Shutdown)));
    assert!(matches!(handle_window(WindowEvent::Resized(800, 600)), Some(AppCommand::Resize(800, 600))));
    assert!(handle_window(WindowEvent::Enter).is_none());
}

#[test]
fn deadline_is_taken_exactly_once() {
    let mut ui = AppUi::new();
    assert_eq!(ui.take_repain_delay(), None);
    let frame = UiFrame {
        back_clicked: false,
        forward_clicked: false,
        reload_clicked: false,
        go_submitted: None,
        toolbar_height: 24,
        repaint_delay_ms: 250,
    };
    let mut cmds: Vec<AppCommand> = Vec::new();
    ui.update(false, frame, &mut cmds);
    assert!(cmds.is_empty());
    assert_eq!(ui.take_repain_delay(), Some(250));
    // A stale deadline is never reused.
    assert_eq!(ui.take_repain_delay(), None);
}

#[test]
fn toolbar_frame_commands_in_order() {
    let mut ui = AppUi::new();
    let frame = UiFrame {
        back_clicked: true,
        forward_clicked: true,
        reload_clicked: true,
        go_submitted: Some("news.example".to_string()),
        toolbar_height: 24,
        repaint_delay_ms: 0,
    };
    let mut cmds: Vec<AppCommand> = Vec::new();
    ui.update(false, frame, &mut cmds);
    assert_eq!(cmds.len(), 4);
    assert!(matches!(cmds[0], AppCommand::Browser(BrowserCommand::Back)));
    assert!(matches!(cmds[1], AppCommand::Browser(BrowserCommand::Foward)));
    assert!(matches!(cmds[2], AppCommand::Browser(BrowserCommand::Reload)));
    match &cmds[3] {
        AppCommand::Browser(BrowserCommand::Go(text)) => assert_eq!(text, "news.example"),
        other => panic!("unexpected command: {other:?}"),
    }
}

#[test]
fn reload_hidden_while_loading() {
    let mut ui = AppUi::new();
    let frame = UiFrame {
        back_clicked: false,
        forward_clicked: false,
        reload_clicked: true,
        go_submitted: None,
        toolbar_height: 24,
        repaint_delay_ms: 0,
    };
    let mut cmds: Vec<AppCommand> = Vec::new();
    ui.update(true, frame, &mut cmds);
    assert!(cmds.is_empty());
}

#[test]
fn rel_pos_subtracts_toolbar() {
    let mut ui = AppUi::new();
    ui.toolbar_height = 25;
    assert_eq!(ui.into_browser_rel_pos(7, 100), (7, 75));
    assert_eq!(ui.into_browser_rel_pos(7, 10), (7, -15));
}

#[test]
fn ui_draw_latch_clears() {
    let mut ui = AppUi::new();
    assert!(!ui.draw(false));
    assert!(ui.draw(true));
    ui.request_repaint();
    assert!(ui.draw(false));
    assert!(!ui.draw(false));
}

#[test]
fn state_tracks_pointer_and_queues_events() {
    let mut state = State::new();
    let ctx = quiet_ctx();
    let resp = state.on_event(&NativeEvent::MouseMotion { x: 4, y: 8 }, &ctx);
    assert_eq!(resp, EventResponse { consumed: false, repaint: true });
    assert_eq!(state.get_pointer_pos_in_points(), Some((4, 8)));
    let resp = state.on_event(&NativeEvent::Window(WindowEvent::Leave), &ctx);
    assert!(resp.repaint && !resp.consumed);
    assert_eq!(state.get_pointer_pos_in_points(), None);
    let taken = state.take_egui_input();
    assert_eq!(taken.len(), 2);
    assert!(matches!(taken[0], UiEvent::PointerMoved { x: 4, y: 8 }));
    assert!(matches!(taken[1], UiEvent::PointerGone));
    assert!(state.take_egui_input().is_empty());
}

#[test]
fn state_text_input_queues_text() {
    let mut state = State::new();
    let resp = state.on_event(
        &NativeEvent::TextInput { text: "hi".to_string() },
        &quiet_ctx(),
    );
    assert_eq!(resp, EventResponse { consumed: false, repaint: true });
    let taken = state.take_egui_input();
    assert_eq!(taken.len(), 1);
    match &taken[0] {
        UiEvent::Text(t) => assert_eq!(t, "hi"),
        other => panic!("unexpected event: {other:?}"),
    }
}

#[test]
fn platform_output_writes_clipboard_in_order() {
    let mut state = State::new();
    // Pointer over the window, so the cursor request takes effect.
    state.on_event(&NativeEvent::MouseMotion { x: 1, y: 1 }, &quiet_ctx());
    let output = PlatformOutput {
        commands: vec![
            OutputCommand::CopyText("one".to_string()),
            OutputCommand::CopyImage,
            OutputCommand::OpenUrl("https://example.net/".to_string()),
            OutputCommand::CopyText("two".to_string()),
        ],
        cursor_icon: CursorIcon::Text,
    };
    let actions = state.handle_platform_output(output);
    assert_eq!(actions.len(), 3);
    assert!(matches!(&actions[0], UiAction::SetClipboard(t) if t == "one"));
    assert!(matches!(&actions[1], UiAction::SetClipboard(t) if t == "two"));
    assert!(matches!(actions[2], UiAction::SetCursor(SystemCursor::IBeam)));
}

#[test]
fn cursor_changes_are_cached() {
    let mut state = State::new();
    state.on_event(&NativeEvent::MouseMotion { x: 1, y: 1 }, &quiet_ctx());
    let ask = |icon: CursorIcon| PlatformOutput { commands: Vec::new(), cursor_icon: icon };
    let actions = state.handle_platform_output(ask(CursorIcon::PointingHand));
    assert_eq!(actions.len(), 1);
    assert!(matches!(actions[0], UiAction::SetCursor(SystemCursor::Hand)));
    // Asking for the shape already shown changes nothing.
    assert!(state.handle_platform_output(ask(CursorIcon::PointingHand)).is_empty());
    // With the pointer away the cache clears and nothing is set.
    state.on_event(&NativeEvent::Window(WindowEvent::Leave), &quiet_ctx());
    assert!(state.handle_platform_output(ask(CursorIcon::Wait)).is_empty());
    // When it returns, the shape is set again.
    state.on_event(&NativeEvent::MouseMotion { x: 2, y: 2 }, &quiet_ctx());
    let actions = state.handle_platform_output(ask(CursorIcon::Wait));
    assert!(matches!(actions[0], UiAction::SetCursor(SystemCursor::Wait)));
}

#[test]
fn wake_up_channel_messages() {
    let sender = UserEventSender::new(42);
    assert_eq!(sender.message(UserEvent::BrowserFrameReady), (42, 1));
    assert_eq!(sender.wake(), (42, 0));
}

#[test]
fn unknown_button_never_reaches_the_engine() {
    let mut handler = AppEventHandler::new(Vec::new());
    let mut ui = AppUi::new();
    let outcome = WaitOutcome::Event(NativeEvent::MouseButtonDown {
        button: MouseButton::Unknown,
        x: 5,
        y: 200,
    });
    let cmds = handler.wait(&mut ui, WaitSpec::Indefinite, &outcome, &quiet_ctx());
    assert!(cmds.iter().all(|c| !matches!(c, AppCommand::Browser(_))));
}
