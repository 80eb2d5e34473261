//! Application lifecycle and the command vocabulary.
//!
//! Commands are intents produced by input translation and by the toolbar UI
//! within one loop iteration and consumed, in order, by the state machine in
//! the same iteration; none survives into the next iteration. The state
//! machine owns the small lifecycle: `Initialized` until the first page
//! load is issued, then `Running`, and `ShuttingDown` exactly once and
//! terminally.

use crate::browser::{
    execute_post, focused_of, spec_after_paint, spec_after_resize, spec_paint_returns, AppBrowser,
    BrowserCommand, BrowserError, EngineAction,
};
use crate::config::AppConfig;
use crate::engine::InputEvent;
use crate::event::handler::AppEventHandler;
use crate::ui::AppUi;
use vstd::prelude::*;

verus! {

/// Lifecycle of the shell. `Initialized` until the first page load is
/// issued, then `Running`; `ShuttingDown` is terminal.
#[derive(Clone, Copy, Debug, PartialEq, Eq, Structural)]
pub enum AppState {
    Initialized,
    Running,
    ShuttingDown,
}

/// Commands consumed by the full shell's state machine.
#[derive(Clone, Debug)]
pub enum AppCommand {
    Shutdown,
    Draw,
    Resize(u32, u32),
    Browser(BrowserCommand),
}

/// Commands of the reduced input loop: quit, resize, or forward one
/// semantic input event.
#[derive(Clone, Debug)]
pub enum AppCmd {
    Quit,
    Resize(u32, u32),
    HandleInput(InputEvent),
}

/// The whole shell: configuration, lifecycle state, and the three
/// coordinators the loop drives.
pub struct App {
    pub config: AppConfig,
    pub state: AppState,
    pub browser: AppBrowser,
    pub ui: AppUi,
    pub event_handler: AppEventHandler,
}

/// The shell after a resize command: only the browser's recorded surface
/// size changes.
pub open spec fn app_after_resize(a: App, w: u32, h: u32) -> App {
    App { browser: spec_after_resize(a.browser, w, h), ..a }
}

impl App {
    /// Assembles the shell in `Initialized`, with the controllers the
    /// driver found connected.
    pub fn new(config: AppConfig, controllers: Vec<u32>) -> (r: App)
        ensures
            r.config == config,
            r.state is Initialized,
            r.browser.webviews@ == Seq::<u64>::empty(),
            r.browser.next_webview_id == 0,
            r.browser.repaint_pending == false,
            r.browser.shutting_down == false,
            r.ui.repaint_delay is None,
            r.ui.repaint_pending == false,
            r.ui.toolbar_height == 0,
            r.event_handler.game_controllers@ == controllers@,
    {
        App {
            config,
            state: AppState::Initialized,
            browser: AppBrowser::new(),
            ui: AppUi::new(),
            event_handler: AppEventHandler::new(controllers),
        }
    }

    /// Issues the initial navigation to the configured home page and
    /// enters `Running`. Fails, leaving the shell untouched, exactly when
    /// the home page is not an absolute URL; the driver treats that as a
    /// fatal startup error, like any other failure before the loop begins.
    pub fn start(&mut self) -> (r: Result<Vec<EngineAction>, BrowserError>)
        requires
            old(self).state is Initialized,
            old(self).browser.next_webview_id < u64::MAX,
        ensures
            (r is Err) == !crate::browser::url_parse_ok(old(self).config.browser.home_page@),
            r is Err ==> *final(self) == *old(self),
            r matches Ok(v) ==> {
                &&& final(self).state is Running
                &&& v@.len() == 1
                &&& v@[0] matches EngineAction::CreateWebView { id, url } && id == old(
                    self,
                ).browser.next_webview_id && url@ == crate::browser::url_normalized(
                    old(self).config.browser.home_page@,
                )
                &&& final(self).browser.webviews@ == old(self).browser.webviews@.push(
                    old(self).browser.next_webview_id,
                )
                &&& final(self).browser.next_webview_id == old(self).browser.next_webview_id + 1
                &&& final(self).browser.repaint_pending == old(self).browser.repaint_pending
                &&& final(self).browser.state == old(self).browser.state
                &&& final(self).browser.shutting_down == old(self).browser.shutting_down
                &&& final(self).browser.surface_width == old(self).browser.surface_width
                &&& final(self).browser.surface_height == old(self).browser.surface_height
                &&& final(self).config == old(self).config
                &&& final(self).ui == old(self).ui
                &&& final(self).event_handler == old(self).event_handler
            },
    {
        let home = self.config.browser.home_page.clone();
        match self.browser.open_tab(home.as_str()) {
            Ok(actions) => {
                self.state = AppState::Running;
                Ok(actions)
            },
            Err(e) => Err(e),
        }
    }

    /// Dispatches one queued command: shutdown flips the lifecycle and
    /// asks the engine to tear down; a draw command latches a UI repaint
    /// so the iteration's draw step presents; a resize is recorded and
    /// propagated; navigation goes to the browser coordinator.
    pub fn execute_command(&mut self, command: &AppCommand) -> (r: Result<
        Vec<EngineAction>,
        BrowserError,
    >)
        ensures
            final(self).config == old(self).config,
            final(self).event_handler == old(self).event_handler,
            *command is Shutdown ==> {
                &&& final(self).state is ShuttingDown
                &&& final(self).browser.shutting_down == true
                &&& final(self).browser.webviews@ == old(self).browser.webviews@
                &&& final(self).browser.repaint_pending == old(self).browser.repaint_pending
                &&& final(self).ui == old(self).ui
                &&& r matches Ok(v) && v@ == seq![EngineAction::BeginShutdown]
            },
            *command is Draw ==> {
                &&& final(self).state == old(self).state
                &&& final(self).browser == old(self).browser
                &&& final(self).ui.repaint_pending == true
                &&& final(self).ui.state == old(self).ui.state
                &&& final(self).ui.toolbar_height == old(self).ui.toolbar_height
                &&& final(self).ui.repaint_delay == old(self).ui.repaint_delay
                &&& r matches Ok(v) && v@ == Seq::<EngineAction>::empty()
            },
            *command matches AppCommand::Resize(w, h) ==> {
                &&& *final(self) == app_after_resize(*old(self), w, h)
                &&& r matches Ok(v) && (match focused_of(old(self).browser) {
                    Some(id) => v@ == seq![EngineAction::Resize { id, width: w, height: h }],
                    None => v@ == Seq::<EngineAction>::empty(),
                })
            },
            *command matches AppCommand::Browser(c) ==> {
                &&& final(self).state == old(self).state
                &&& final(self).browser == old(self).browser
                &&& final(self).ui == old(self).ui
                &&& execute_post(old(self).browser, c, old(self).config.browser, r)
            },
    {
        match command {
            AppCommand::Shutdown => {
                let action = self.shutdown();
                let mut actions: Vec<EngineAction> = Vec::new();
                actions.push(action);
                assert(actions@ =~= seq![EngineAction::BeginShutdown]);
                Ok(actions)
            },
            AppCommand::Draw => {
                self.ui.request_repaint();
                Ok(Vec::new())
            },
            AppCommand::Resize(w, h) => Ok(self.browser.resize(*w, *h)),
            AppCommand::Browser(c) => self.browser.execute_command(c, &self.config.browser),
        }
    }

    /// Enters `ShuttingDown` and asks the engine to begin its teardown.
    fn shutdown(&mut self) -> (r: EngineAction)
        ensures
            r is BeginShutdown,
            final(self).state is ShuttingDown,
            final(self).browser.shutting_down == true,
            final(self).browser.webviews@ == old(self).browser.webviews@,
            final(self).browser.next_webview_id == old(self).browser.next_webview_id,
            final(self).browser.repaint_pending == old(self).browser.repaint_pending,
            final(self).browser.state == old(self).browser.state,
            final(self).browser.surface_width == old(self).browser.surface_width,
            final(self).browser.surface_height == old(self).browser.surface_height,
            final(self).config == old(self).config,
            final(self).ui == old(self).ui,
            final(self).event_handler == old(self).event_handler,
    {
        self.state = AppState::ShuttingDown;
        self.browser.start_shutting_down()
    }

    /// The per-iteration draw step: consumes the browser's pending frame
    /// (a paint action for the focused webview exactly when one was
    /// pending), then lets the UI decide whether the window is presented.
    pub fn draw(&mut self) -> (r: (bool, Vec<EngineAction>))
        ensures
            r.0 == (old(self).ui.repaint_pending || spec_paint_returns(old(self).browser)),
            final(self).browser == spec_after_paint(old(self).browser),
            final(self).ui.repaint_pending == false,
            final(self).ui.state == old(self).ui.state,
            final(self).ui.toolbar_height == old(self).ui.toolbar_height,
            final(self).ui.repaint_delay == old(self).ui.repaint_delay,
            final(self).state == old(self).state,
            final(self).config == old(self).config,
            final(self).event_handler == old(self).event_handler,
            spec_paint_returns(old(self).browser) ==> r.1@ == seq![
                EngineAction::Paint { id: focused_of(old(self).browser)->Some_0 },
            ],
            !spec_paint_returns(old(self).browser) ==> r.1@ == Seq::<EngineAction>::empty(),
    {
        let focused = self.browser.get_focused_webview();
        let painted = self.browser.paint();
        let mut actions: Vec<EngineAction> = Vec::new();
        match focused {
            Some(id) => {
                if painted {
                    actions.push(EngineAction::Paint { id });
                    assert(actions@ =~= seq![EngineAction::Paint { id }]);
                }
            },
            None => {},
        }
        let ui_painted = self.ui.draw(painted);
        (ui_painted, actions)
    }
}

/// Law: a resize command processed while the shell is running round-trips
/// — afterwards the shell is still running and the browser coordinator's
/// size query answers exactly the requested width and height.
pub proof fn lemma_resize_round_trip(a: App, w: u32, h: u32)
    requires
        a.state is Running,
    ensures
        app_after_resize(a, w, h).state is Running,
        app_after_resize(a, w, h).browser.surface_width == w,
        app_after_resize(a, w, h).browser.surface_height == h,
{
}

} // verus!
