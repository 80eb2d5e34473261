use retsurf::app::{App, AppCommand, AppState};
use retsurf::browser::{
    into_scroll_delta, try_into_url, AppBrowser, BrowserCommand, BrowserError, EngineAction,
};
use retsurf::config::AppConfig;
use retsurf::engine::{
    DevicePoint, InputEvent, LoadStatus, MouseButton, MouseButtonAction, MouseButtonEvent,
    WheelDelta, WheelEvent, WheelMode,
};

#[test]
fn consume_repaint_true_then_false() {
    let mut b = AppBrowser::new();
    b.add_webview(1);
    let wake = b.notify_new_frame_ready();
    assert!(matches!(wake, retsurf::event::user::UserEvent::BrowserFrameReady));
    assert!(b.paint());
    assert!(!b.paint());
    // A new frame re-arms the latch.
    b.notify_new_frame_ready();
    assert!(b.paint());
}

#[test]
fn repaint_needs_a_focused_webview() {
    let mut b = AppBrowser::new();
    b.notify_new_frame_ready();
    // No webview: nothing to paint, and the frame stays pending.
    assert!(!b.paint());
    b.add_webview(3);
    assert!(b.paint());
}

#[test]
fn focus_is_most_recently_opened() {
    let mut b = AppBrowser::new();
    assert_eq!(b.get_focused_webview(), None);
    b.add_webview(1);
    b.add_webview(2);
    assert_eq!(b.get_focused_webview(), Some(2));
    assert!(b.is_focused_webview(2));
    assert!(!b.is_focused_webview(1));
}

#[test]
fn url_and_status_reports_track_focus_only() {
    let mut b = AppBrowser::new();
    b.add_webview(1);
    b.add_webview(2);
    b.notify_url_changed(1, "https://ignored.example/".to_string());
    assert_eq!(b.state.location, "");
    b.notify_url_changed(2, "https://seen.example/".to_string());
    assert_eq!(b.state.location, "https://seen.example/");
    b.notify_load_status_changed(2, LoadStatus::Started);
    assert!(b.state.is_loading());
    b.notify_load_status_changed(1, LoadStatus::Complete);
    assert!(b.state.is_loading());
    b.notify_load_status_changed(2, LoadStatus::Complete);
    assert!(!b.state.is_loading());
}

#[test]
fn open_tab_rejects_relative_input() {
    let mut b = AppBrowser::new();
    assert_eq!(b.open_tab("not a url").unwrap_err(), BrowserError::InvalidUrl);
    assert_eq!(b.get_focused_webview(), None);
}

#[test]
fn open_tab_creates_and_focuses() {
    let mut b = AppBrowser::new();
    let actions = b.open_tab("https://duckduckgo.com").unwrap();
    assert_eq!(actions.len(), 1);
    match &actions[0] {
        EngineAction::CreateWebView { id, url } => {
            assert_eq!(*id, 0);
            assert_eq!(url, "https://duckduckgo.com/");
        }
        other => panic!("unexpected action: {other:?}"),
    }
    assert_eq!(b.get_focused_webview(), Some(0));
    let aux = b.request_open_auxiliary_webview();
    assert_eq!(aux, 1);
    assert_eq!(b.get_focused_webview(), Some(1));
}

#[test]
fn page_unit_wheel_fails_loudly() {
    // A page-unit delta must be a detectable, documented failure, never a
    // silently-zero scroll.
    let delta = WheelDelta { x: 0, y: 1, z: 0, mode: WheelMode::DeltaPage };
    assert_eq!(into_scroll_delta(&delta).unwrap_err(), BrowserError::UnsupportedWheelUnit);
    let mut b = AppBrowser::new();
    b.add_webview(1);
    let event = InputEvent::Wheel(WheelEvent { delta, point: DevicePoint { x: 0, y: 0 } });
    assert_eq!(b.handle_input(&event).unwrap_err(), BrowserError::UnsupportedWheelUnit);
}

#[test]
fn wheel_scroll_scales_negates_and_pumps() {
    let delta = WheelDelta { x: 1, y: -2, z: 0, mode: WheelMode::DeltaLine };
    assert_eq!(into_scroll_delta(&delta).unwrap(), (76, -152));
    let pixel = WheelDelta { x: 3, y: 5, z: 0, mode: WheelMode::DeltaPixel };
    assert_eq!(into_scroll_delta(&pixel).unwrap(), (12, 20));
    let mut b = AppBrowser::new();
    b.add_webview(7);
    let event = InputEvent::Wheel(WheelEvent { delta, point: DevicePoint { x: 10, y: 20 } });
    let actions = b.handle_input(&event).unwrap();
    assert_eq!(actions.len(), 3);
    assert!(matches!(actions[0], EngineAction::NotifyInput { id: 7, .. }));
    match &actions[1] {
        EngineAction::Scroll { id, dx, dy, x, y } => {
            assert_eq!((*id, *dx, *dy, *x, *y), (7, -76, 152, 10, 20));
        }
        other => panic!("unexpected action: {other:?}"),
    }
    assert!(matches!(actions[2], EngineAction::SpinEventLoop));
}

#[test]
fn back_and_forward_buttons_navigate_history() {
    let mut b = AppBrowser::new();
    b.add_webview(5);
    let back = InputEvent::MouseButton(MouseButtonEvent {
        action: MouseButtonAction::Down,
        button: MouseButton::Back,
        point: DevicePoint { x: 0, y: 0 },
    });
    let actions = b.handle_input(&back).unwrap();
    assert_eq!(actions.len(), 2);
    assert!(matches!(actions[1], EngineAction::GoBack { id: 5 }));
    let fwd_up = InputEvent::MouseButton(MouseButtonEvent {
        action: MouseButtonAction::Up,
        button: MouseButton::Forward,
        point: DevicePoint { x: 0, y: 0 },
    });
    // Releases do not navigate.
    let actions = b.handle_input(&fwd_up).unwrap();
    assert_eq!(actions.len(), 1);
}

#[test]
fn commands_against_empty_coordinator_are_no_ops() {
    let b = AppBrowser::new();
    let config = AppConfig::default().browser;
    assert!(b.execute_command(&BrowserCommand::Back, &config).unwrap().is_empty());
    assert!(b.execute_command(&BrowserCommand::Reload, &config).unwrap().is_empty());
}

#[test]
fn go_command_resolves_and_loads() {
    let mut b = AppBrowser::new();
    b.add_webview(1);
    let config = AppConfig::default().browser;
    let actions = b
        .execute_command(&BrowserCommand::Go("google.com".to_string()), &config)
        .unwrap();
    assert_eq!(actions.len(), 1);
    match &actions[0] {
        EngineAction::LoadUrl { id, url } => {
            assert_eq!(*id, 1);
            assert_eq!(url, "https://google.com/");
        }
        other => panic!("unexpected action: {other:?}"),
    }
    // Unresolvable input is dropped rather than surfaced.
    let actions = b
        .execute_command(&BrowserCommand::Go("".to_string()), &config)
        .unwrap();
    assert!(actions.is_empty());
}

#[test]
fn resize_round_trips_through_size_query() {
    let mut app = App::new(AppConfig::default(), Vec::new());
    let r = app.execute_command(&AppCommand::Resize(800, 600));
    assert!(r.unwrap().is_empty());
    assert_eq!(app.browser.size(), (800, 600));
    // With a focused webview the resize also reaches the engine.
    app.browser.add_webview(2);
    let actions = app.execute_command(&AppCommand::Resize(1024, 768)).unwrap();
    assert_eq!(actions.len(), 1);
    assert!(matches!(actions[0], EngineAction::Resize { id: 2, width: 1024, height: 768 }));
    assert_eq!(app.browser.size(), (1024, 768));
}

#[test]
fn lifecycle_runs_then_shuts_down_once() {
    let mut app = App::new(AppConfig::default(), Vec::new());
    assert_eq!(app.state, AppState::Initialized);
    let actions = app.start().unwrap();
    assert_eq!(app.state, AppState::Running);
    assert_eq!(actions.len(), 1);
    match &actions[0] {
        EngineAction::CreateWebView { id: 0, url } => {
            assert_eq!(url, "https://duckduckgo.com/");
        }
        other => panic!("unexpected action: {other:?}"),
    }
    app.browser.add_webview(0);
    let actions = app.execute_command(&AppCommand::Shutdown).unwrap();
    assert_eq!(actions.len(), 1);
    assert!(matches!(actions[0], EngineAction::BeginShutdown));
    assert_eq!(app.state, AppState::ShuttingDown);
    assert!(matches!(app.browser.deinit(), EngineAction::Deinit));
}

#[test]
fn draw_step_paints_pending_frame_exactly_once() {
    let mut app = App::new(AppConfig::default(), Vec::new());
    app.browser.add_webview(4);
    app.browser.notify_new_frame_ready();
    let (presented, actions) = app.draw();
    assert!(presented);
    assert_eq!(actions.len(), 1);
    assert!(matches!(actions[0], EngineAction::Paint { id: 4 }));
    let (presented, actions) = app.draw();
    assert!(!presented);
    assert!(actions.is_empty());
}

#[test]
fn draw_command_latches_presentation() {
    let mut app = App::new(AppConfig::default(), Vec::new());
    let actions = app.execute_command(&AppCommand::Draw).unwrap();
    assert!(actions.is_empty());
    let (presented, engine_actions) = app.draw();
    assert!(presented);
    assert!(engine_actions.is_empty());
}

#[test]
fn bad_home_page_is_fatal_at_start() {
    let mut config = AppConfig::default();
    config.browser.home_page = "no scheme here".to_string();
    let mut app = App::new(config, Vec::new());
    assert_eq!(app.start().unwrap_err(), BrowserError::InvalidUrl);
    assert_eq!(app.state, AppState::Initialized);
}

#[test]
fn try_into_url_is_reexercised_by_go() {
    // The navigation path and the bare function agree.
    assert_eq!(
        try_into_url("google.com", "https://duckduckgo.com/?q=%s").unwrap(),
        "https://google.com/"
    );
}
