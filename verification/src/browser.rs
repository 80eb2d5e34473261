//! Browser coordinator: the shell's record of the embedded engine.
//!
//! The coordinator tracks which webviews exist, which one is focused (the
//! most recently opened), the repaint-pending latch, the focused page's
//! location and load status, and the surface size. Its methods return the
//! engine actions the driver must perform; the engine itself runs behind
//! the driver. Address-bar input is resolved to a URL here, through an
//! ordered fallback chain ending at the configured search page.

use crate::config::BrowserConfig;
use crate::engine::{InputEvent, LoadStatus, MouseButtonAction, WheelDelta, WheelMode};
use crate::event::user::UserEvent;
use crate::text::{
    is_domain_like, is_domain_like_str, replace_placeholder, replace_placeholder_str,
    starts_with_char, str_starts_with_char, trim_spec, trim_str,
};
use vstd::prelude::*;

verus! {

/// Navigation commands aimed at the focused webview.
#[derive(Clone, Debug)]
pub enum BrowserCommand {
    Back,
    Foward,
    Reload,
    Go(String),
    HandleInput(InputEvent),
}

/// Failures the coordinator reports instead of panicking.
#[derive(Clone, Copy, Debug, PartialEq, Eq, Structural)]
pub enum BrowserError {
    /// The string handed to `open_tab` is not an absolute URL.
    InvalidUrl,
    /// A wheel event carried a page-unit delta, which this shell does not
    /// support; failing here is deliberate, so the delta is never silently
    /// scaled to zero.
    UnsupportedWheelUnit,
}

/// Actions the driver performs against the real engine, in order.
#[derive(Clone, Debug)]
pub enum EngineAction {
    /// Build a webview for `url` and focus it.
    CreateWebView { id: u64, url: String },
    /// Deliver one input event to the webview.
    NotifyInput { id: u64, event: InputEvent },
    /// Apply a scroll displacement at a point, in the engine's sign
    /// convention (content moves opposite to the wheel).
    Scroll { id: u64, dx: i64, dy: i64, x: i64, y: i64 },
    /// Pump the engine's cooperative task queue once more; scroll deltas
    /// are not applied until this happens.
    SpinEventLoop,
    GoBack { id: u64 },
    GoForward { id: u64 },
    Reload { id: u64 },
    LoadUrl { id: u64, url: String },
    Resize { id: u64, width: u32, height: u32 },
    /// Present the webview's ready frame.
    Paint { id: u64 },
    BeginShutdown,
    Deinit,
}

/// What the UI shows of the focused page.
pub struct BrowserState {
    pub location: String,
    pub load_status: LoadStatus,
}

impl BrowserState {
    /// Whether a load is still in progress.
    pub fn is_loading(&self) -> (r: bool)
        ensures
            r == !(self.load_status is Complete),
    {
        !matches!(self.load_status, LoadStatus::Complete)
    }
}

impl Default for BrowserState {
    /// No location, nothing loading.
    fn default() -> (r: Self)
        ensures
            r.location@ == Seq::<char>::empty(),
            r.load_status is Complete,
    {
        BrowserState { location: String::new(), load_status: LoadStatus::Complete }
    }
}

/// Whether a string parses as an absolute URL. Stands for the outside
/// parser's acceptance; nothing in this crate states which strings those
/// are.
pub uninterp spec fn url_parse_ok(s: Seq<char>) -> bool;

/// The normalized serialization of an absolute URL, as the outside parser
/// re-serializes what it accepted.
pub uninterp spec fn url_normalized(s: Seq<char>) -> Seq<char>;

/// Relies on url::Url::parse to decide which strings are absolute URLs,
/// and on url::Url::as_str for the accepted URL's normalized
/// serialization. Both depend on the input string alone.
#[verifier::external_body]
fn parse_url(s: &str) -> (r: Option<String>)
    ensures
        r is Some <==> url_parse_ok(s@),
        r matches Some(u) ==> u@ == url_normalized(s@),
{
    match url::Url::parse(s) {
        Ok(u) => Some(u.as_str().to_owned()),
        Err(_) => None,
    }
}

/// Where address-bar input resolves, after trimming: as an absolute URL if
/// it parses; as a local file if it starts with a slash and the `file://`
/// form parses; as a bare domain under `https://` if it has that shape; as
/// a search-page query otherwise; `None` when every fallback fails.
pub open spec fn resolved_url(request: Seq<char>, searchpage: Seq<char>) -> Option<Seq<char>> {
    let t = trim_spec(request);
    let file_cand = "file://"@ + t;
    let https_cand = "https://"@ + t;
    let search_cand = replace_placeholder(searchpage, t);
    if url_parse_ok(t) {
        Some(url_normalized(t))
    } else if starts_with_char(t, '/') && url_parse_ok(file_cand) {
        Some(url_normalized(file_cand))
    } else if is_domain_like(t) && url_parse_ok(https_cand) {
        Some(url_normalized(https_cand))
    } else if t.len() > 0 && url_parse_ok(search_cand) {
        Some(url_normalized(search_cand))
    } else {
        None
    }
}

/// Interprets address-bar input: tries the input as an absolute URL, then
/// as a local file path, then as a bare domain, then as a search query
/// against `searchpage`; returns the resolved URL's normalized form, or
/// `None` when every fallback fails.
pub fn try_into_url(request: &str, searchpage: &str) -> (r: Option<String>)
    ensures
        (r is Some) == (resolved_url(request@, searchpage@) is Some),
        r matches Some(u) ==> resolved_url(request@, searchpage@) matches Some(v) && u@ == v,
{
    let trimmed = trim_str(request);
    match parse_url(trimmed.as_str()) {
        Some(u) => {
            return Some(u);
        },
        None => {},
    }
    if str_starts_with_char(trimmed.as_str(), '/') {
        let mut cand = String::from_str("file://");
        cand.append(trimmed.as_str());
        match parse_url(cand.as_str()) {
            Some(u) => {
                return Some(u);
            },
            None => {},
        }
    }
    if is_domain_like_str(trimmed.as_str()) {
        let mut cand = String::from_str("https://");
        cand.append(trimmed.as_str());
        match parse_url(cand.as_str()) {
            Some(u) => {
                return Some(u);
            },
            None => {},
        }
    }
    if trimmed.as_str().unicode_len() > 0 {
        let cand = replace_placeholder_str(searchpage, trimmed.as_str());
        match parse_url(cand.as_str()) {
            Some(u) => {
                return Some(u);
            },
            None => {},
        }
    }
    None
}

/// Coordinator state. Webviews are identified by the order they were
/// opened in; the last entry is the focused one.
pub struct AppBrowser {
    pub webviews: Vec<u64>,
    pub next_webview_id: u64,
    pub repaint_pending: bool,
    pub state: BrowserState,
    pub shutting_down: bool,
    pub surface_width: u32,
    pub surface_height: u32,
}

/// The focused webview: the most recently opened one, if any exists.
pub open spec fn focused_of(b: AppBrowser) -> Option<u64> {
    if b.webviews@.len() == 0 {
        None
    } else {
        Some(b.webviews@.last())
    }
}

/// Whether a paint is triggered now: a frame is pending and some webview
/// is focused to show it.
pub open spec fn spec_paint_returns(b: AppBrowser) -> bool {
    b.repaint_pending && focused_of(b) is Some
}

/// The coordinator after one paint attempt: the latch clears exactly when
/// the pending frame was consumed.
pub open spec fn spec_after_paint(b: AppBrowser) -> AppBrowser {
    if spec_paint_returns(b) {
        AppBrowser { repaint_pending: false, ..b }
    } else {
        b
    }
}

/// The coordinator after a resize: the recorded surface size is exactly
/// the requested one.
pub open spec fn spec_after_resize(b: AppBrowser, w: u32, h: u32) -> AppBrowser {
    AppBrowser { surface_width: w, surface_height: h, ..b }
}

/// The scaled scroll displacement of a wheel delta: pixel deltas scale by
/// 4, line deltas by 76. A page delta has no scale and is refused.
pub open spec fn scroll_delta_of(wd: WheelDelta) -> Result<(i64, i64), BrowserError> {
    match wd.mode {
        WheelMode::DeltaPixel => Ok(((wd.x * 4) as i64, (wd.y * 4) as i64)),
        WheelMode::DeltaLine => Ok(((wd.x * 76) as i64, (wd.y * 76) as i64)),
        WheelMode::DeltaPage => Err(BrowserError::UnsupportedWheelUnit),
    }
}

/// Scales a wheel delta into a pixel displacement; a page-unit delta is a
/// detectable failure rather than a silently-zero scroll.
pub fn into_scroll_delta(wd: &WheelDelta) -> (r: Result<(i64, i64), BrowserError>)
    ensures
        r == scroll_delta_of(*wd),
{
    match wd.mode {
        WheelMode::DeltaPixel => Ok(((wd.x as i64) * 4, (wd.y as i64) * 4)),
        WheelMode::DeltaLine => Ok(((wd.x as i64) * 76, (wd.y as i64) * 76)),
        WheelMode::DeltaPage => Err(BrowserError::UnsupportedWheelUnit),
    }
}

/// The engine actions one forwarded input event requires, against the
/// focused webview `id`: every event is delivered; a wheel event also
/// scrolls (negated, in the engine's convention) and pumps the task queue
/// once; back and forward pointer buttons navigate the history.
pub open spec fn input_actions_spec(id: u64, event: InputEvent) -> Result<
    Seq<EngineAction>,
    BrowserError,
> {
    let notify = seq![EngineAction::NotifyInput { id, event }];
    match event {
        InputEvent::Wheel(we) => match scroll_delta_of(we.delta) {
            Ok((dx, dy)) => Ok(
                notify + seq![
                    EngineAction::Scroll {
                        id,
                        dx: (0 - dx) as i64,
                        dy: (0 - dy) as i64,
                        x: we.point.x,
                        y: we.point.y,
                    },
                    EngineAction::SpinEventLoop,
                ],
            ),
            Err(e) => Err(e),
        },
        InputEvent::MouseButton(be) => {
            if be.action is Down && be.button is Back {
                Ok(notify + seq![EngineAction::GoBack { id }])
            } else if be.action is Down && be.button is Forward {
                Ok(notify + seq![EngineAction::GoForward { id }])
            } else {
                Ok(notify)
            }
        },
        _ => Ok(notify),
    }
}

/// What one navigation command guarantees of its result, given the
/// coordinator it ran against: exact actions per command, and an error
/// exactly where input forwarding reports one.
pub open spec fn execute_post(
    b: AppBrowser,
    command: BrowserCommand,
    config: BrowserConfig,
    r: Result<Vec<EngineAction>, BrowserError>,
) -> bool {
    &&& command matches BrowserCommand::Back ==> (match focused_of(b) {
        Some(id) => r matches Ok(v) && v@ == seq![EngineAction::GoBack { id }],
        None => r matches Ok(v) && v@ == Seq::<EngineAction>::empty(),
    })
    &&& command matches BrowserCommand::Foward ==> (match focused_of(b) {
        Some(id) => r matches Ok(v) && v@ == seq![EngineAction::GoForward { id }],
        None => r matches Ok(v) && v@ == Seq::<EngineAction>::empty(),
    })
    &&& command matches BrowserCommand::Reload ==> (match focused_of(b) {
        Some(id) => r matches Ok(v) && v@ == seq![EngineAction::Reload { id }],
        None => r matches Ok(v) && v@ == Seq::<EngineAction>::empty(),
    })
    &&& command matches BrowserCommand::Go(location) ==> (match resolved_url(
        location@,
        config.search_page@,
    ) {
        Some(u) => match focused_of(b) {
            Some(id) => r matches Ok(v) && v@.len() == 1 && (v@[0] matches
                EngineAction::LoadUrl { id: lid, url } && lid == id && url@ == u),
            None => r matches Ok(v) && v@ == Seq::<EngineAction>::empty(),
        },
        None => r matches Ok(v) && v@ == Seq::<EngineAction>::empty(),
    })
    &&& command matches BrowserCommand::HandleInput(event) ==> (match focused_of(b) {
        Some(id) => match input_actions_spec(id, event) {
            Ok(actions) => r matches Ok(v) && v@ == actions,
            Err(e) => r == Result::<Vec<EngineAction>, BrowserError>::Err(e),
        },
        None => r matches Ok(v) && v@ == Seq::<EngineAction>::empty(),
    })
}

impl AppBrowser {
    /// A fresh coordinator: no webviews, nothing pending, no size yet.
    pub fn new() -> (r: AppBrowser)
        ensures
            r.webviews@ == Seq::<u64>::empty(),
            r.next_webview_id == 0,
            r.repaint_pending == false,
            r.state.location@ == Seq::<char>::empty(),
            r.state.load_status is Complete,
            r.shutting_down == false,
            r.surface_width == 0,
            r.surface_height == 0,
    {
        AppBrowser {
            webviews: Vec::new(),
            next_webview_id: 0,
            repaint_pending: false,
            state: Default::default(),
            shutting_down: false,
            surface_width: 0,
            surface_height: 0,
        }
    }

    /// Registers a webview the driver created; it becomes the focused one.
    pub fn add_webview(&mut self, id: u64)
        ensures
            final(self).webviews@ == old(self).webviews@.push(id),
            final(self).next_webview_id == old(self).next_webview_id,
            final(self).repaint_pending == old(self).repaint_pending,
            final(self).state == old(self).state,
            final(self).shutting_down == old(self).shutting_down,
            final(self).surface_width == old(self).surface_width,
            final(self).surface_height == old(self).surface_height,
    {
        self.webviews.push(id);
    }

    /// The focused webview: the most recently opened one.
    pub fn get_focused_webview(&self) -> (r: Option<u64>)
        ensures
            r == focused_of(*self),
    {
        let n = self.webviews.len();
        if n == 0 {
            None
        } else {
            Some(self.webviews[n - 1])
        }
    }

    /// Whether `id` is the focused webview.
    pub fn is_focused_webview(&self, id: u64) -> (r: bool)
        ensures
            r == (focused_of(*self) == Some(id)),
    {
        match self.get_focused_webview() {
            Some(focused) => focused == id,
            None => false,
        }
    }

    /// Opens a tab on `url`: allocates the next webview id, focuses it,
    /// and returns the creation action. Fails exactly when `url` is not an
    /// absolute URL; startup treats that as fatal.
    pub fn open_tab(&mut self, url: &str) -> (r: Result<Vec<EngineAction>, BrowserError>)
        requires
            old(self).next_webview_id < u64::MAX,
        ensures
            (r is Err) == !url_parse_ok(url@),
            r matches Err(e) ==> e is InvalidUrl && *final(self) == *old(self),
            r matches Ok(actions) ==> {
                &&& actions@.len() == 1
                &&& actions@[0] matches EngineAction::CreateWebView { id, url: u }
                    && id == old(self).next_webview_id && u@ == url_normalized(url@)
                &&& final(self).webviews@ == old(self).webviews@.push(old(self).next_webview_id)
                &&& final(self).next_webview_id == old(self).next_webview_id + 1
                &&& final(self).repaint_pending == old(self).repaint_pending
                &&& final(self).state == old(self).state
                &&& final(self).shutting_down == old(self).shutting_down
                &&& final(self).surface_width == old(self).surface_width
                &&& final(self).surface_height == old(self).surface_height
            },
    {
        let normalized = match parse_url(url) {
            Some(u) => u,
            None => {
                return Err(BrowserError::InvalidUrl);
            },
        };
        let id = self.next_webview_id;
        self.next_webview_id = id + 1;
        self.webviews.push(id);
        let mut actions: Vec<EngineAction> = Vec::new();
        actions.push(EngineAction::CreateWebView { id, url: normalized });
        Ok(actions)
    }

    /// Registers an engine-requested auxiliary webview (a popup): it gets
    /// the next id and the focus, and the driver builds it.
    pub fn request_open_auxiliary_webview(&mut self) -> (r: u64)
        requires
            old(self).next_webview_id < u64::MAX,
        ensures
            r == old(self).next_webview_id,
            final(self).webviews@ == old(self).webviews@.push(old(self).next_webview_id),
            final(self).next_webview_id == old(self).next_webview_id + 1,
            final(self).repaint_pending == old(self).repaint_pending,
            final(self).state == old(self).state,
            final(self).shutting_down == old(self).shutting_down,
            final(self).surface_width == old(self).surface_width,
            final(self).surface_height == old(self).surface_height,
    {
        let id = self.next_webview_id;
        self.next_webview_id = id + 1;
        self.webviews.push(id);
        id
    }

    /// Latches that a composited frame is ready — setting the latch twice
    /// is idempotent — and names the wake-up to post into the native
    /// queue.
    pub fn notify_new_frame_ready(&mut self) -> (r: UserEvent)
        ensures
            r is BrowserFrameReady,
            final(self).repaint_pending == true,
            final(self).webviews@ == old(self).webviews@,
            final(self).next_webview_id == old(self).next_webview_id,
            final(self).state == old(self).state,
            final(self).shutting_down == old(self).shutting_down,
            final(self).surface_width == old(self).surface_width,
            final(self).surface_height == old(self).surface_height,
    {
        self.repaint_pending = true;
        UserEvent::BrowserFrameReady
    }

    /// Records the focused page's new location; reports from unfocused
    /// webviews are ignored.
    pub fn notify_url_changed(&mut self, id: u64, url: String)
        ensures
            focused_of(*old(self)) == Some(id) ==> final(self).state.location == url
                && final(self).state.load_status == old(self).state.load_status,
            focused_of(*old(self)) != Some(id) ==> final(self).state == old(self).state,
            final(self).webviews@ == old(self).webviews@,
            final(self).next_webview_id == old(self).next_webview_id,
            final(self).repaint_pending == old(self).repaint_pending,
            final(self).shutting_down == old(self).shutting_down,
            final(self).surface_width == old(self).surface_width,
            final(self).surface_height == old(self).surface_height,
    {
        if self.is_focused_webview(id) {
            self.state.location = url;
        }
    }

    /// Records the focused page's load status; reports from unfocused
    /// webviews are ignored.
    pub fn notify_load_status_changed(&mut self, id: u64, status: LoadStatus)
        ensures
            focused_of(*old(self)) == Some(id) ==> final(self).state.load_status == status
                && final(self).state.location == old(self).state.location,
            focused_of(*old(self)) != Some(id) ==> final(self).state == old(self).state,
            final(self).webviews@ == old(self).webviews@,
            final(self).next_webview_id == old(self).next_webview_id,
            final(self).repaint_pending == old(self).repaint_pending,
            final(self).shutting_down == old(self).shutting_down,
            final(self).surface_width == old(self).surface_width,
            final(self).surface_height == old(self).surface_height,
    {
        if self.is_focused_webview(id) {
            self.state.load_status = status;
        }
    }

    /// Consumes the pending repaint: reports whether the driver must paint
    /// the focused webview now. True at most once per ready frame — the
    /// latch clears exactly when a paint is triggered, so calling this
    /// twice without a new frame yields true then false.
    pub fn paint(&mut self) -> (r: bool)
        ensures
            r == spec_paint_returns(*old(self)),
            *final(self) == spec_after_paint(*old(self)),
    {
        if !self.repaint_pending {
            return false;
        }
        match self.get_focused_webview() {
            Some(_) => {
                self.repaint_pending = false;
                true
            },
            None => false,
        }
    }

    /// Forwards one input event to the focused webview, if any, and
    /// derives the follow-up actions. Fails exactly on a page-unit wheel
    /// delta.
    pub fn handle_input(&self, event: &InputEvent) -> (r: Result<Vec<EngineAction>, BrowserError>)
        ensures
            match focused_of(*self) {
                Some(id) => match input_actions_spec(id, *event) {
                    Ok(actions) => r matches Ok(v) && v@ == actions,
                    Err(e) => r == Result::<Vec<EngineAction>, BrowserError>::Err(e),
                },
                None => r matches Ok(v) && v@ == Seq::<EngineAction>::empty(),
            },
    {
        let id = match self.get_focused_webview() {
            Some(id) => id,
            None => {
                return Ok(Vec::new());
            },
        };
        let mut actions: Vec<EngineAction> = Vec::new();
        actions.push(EngineAction::NotifyInput { id, event: *event });
        match event {
            InputEvent::Wheel(we) => {
                let (dx, dy) = match into_scroll_delta(&we.delta) {
                    Ok(d) => d,
                    Err(e) => {
                        return Err(e);
                    },
                };
                actions.push(
                    EngineAction::Scroll { id, dx: 0 - dx, dy: 0 - dy, x: we.point.x, y: we.point.y },
                );
                actions.push(EngineAction::SpinEventLoop);
            },
            InputEvent::MouseButton(be) => {
                if matches!(be.action, MouseButtonAction::Down) {
                    match be.button {
                        crate::engine::MouseButton::Back => {
                            actions.push(EngineAction::GoBack { id });
                        },
                        crate::engine::MouseButton::Forward => {
                            actions.push(EngineAction::GoForward { id });
                        },
                        _ => {},
                    }
                }
            },
            _ => {},
        }
        proof {
            let spec_r = input_actions_spec(id, *event);
            assert(spec_r is Ok);
            assert(actions@ =~= spec_r->Ok_0);
        }
        Ok(actions)
    }

    /// Executes one navigation command against the focused webview; with
    /// none focused, every command is a no-op. Unresolvable address-bar
    /// input is dropped. Fails exactly where input forwarding does.
    pub fn execute_command(&self, command: &BrowserCommand, config: &BrowserConfig) -> (r: Result<
        Vec<EngineAction>,
        BrowserError,
    >)
        ensures
            execute_post(*self, *command, *config, r),
    {
        match command {
            BrowserCommand::Back => {
                let mut actions: Vec<EngineAction> = Vec::new();
                match self.get_focused_webview() {
                    Some(id) => {
                        actions.push(EngineAction::GoBack { id });
                    },
                    None => {},
                }
                Ok(actions)
            },
            BrowserCommand::Foward => {
                let mut actions: Vec<EngineAction> = Vec::new();
                match self.get_focused_webview() {
                    Some(id) => {
                        actions.push(EngineAction::GoForward { id });
                    },
                    None => {},
                }
                Ok(actions)
            },
            BrowserCommand::Reload => {
                let mut actions: Vec<EngineAction> = Vec::new();
                match self.get_focused_webview() {
                    Some(id) => {
                        actions.push(EngineAction::Reload { id });
                    },
                    None => {},
                }
                Ok(actions)
            },
            BrowserCommand::Go(location) => {
                let mut actions: Vec<EngineAction> = Vec::new();
                match try_into_url(location.as_str(), config.search_page.as_str()) {
                    Some(url) => {
                        match self.get_focused_webview() {
                            Some(id) => {
                                actions.push(EngineAction::LoadUrl { id, url });
                            },
                            None => {},
                        }
                    },
                    None => {},
                }
                Ok(actions)
            },
            BrowserCommand::HandleInput(event) => self.handle_input(event),
        }
    }

    /// Records the new surface size and resizes the focused webview. The
    /// recorded size is exactly the requested one, so a later size query
    /// answers `(w, h)`.
    pub fn resize(&mut self, w: u32, h: u32) -> (r: Vec<EngineAction>)
        ensures
            *final(self) == spec_after_resize(*old(self), w, h),
            match focused_of(*old(self)) {
                Some(id) => r@ == seq![EngineAction::Resize { id, width: w, height: h }],
                None => r@ == Seq::<EngineAction>::empty(),
            },
    {
        self.surface_width = w;
        self.surface_height = h;
        let mut actions: Vec<EngineAction> = Vec::new();
        match self.get_focused_webview() {
            Some(id) => {
                actions.push(EngineAction::Resize { id, width: w, height: h });
                assert(actions@ =~= seq![EngineAction::Resize { id, width: w, height: h }]);
            },
            None => {},
        }
        actions
    }

    /// The surface size last recorded by a resize.
    pub fn size(&self) -> (r: (u32, u32))
        ensures
            r.0 == self.surface_width,
            r.1 == self.surface_height,
    {
        (self.surface_width, self.surface_height)
    }

    /// Asks the engine to begin an orderly teardown; the loop then drains
    /// naturally.
    pub fn start_shutting_down(&mut self) -> (r: EngineAction)
        ensures
            r is BeginShutdown,
            final(self).shutting_down == true,
            final(self).webviews@ == old(self).webviews@,
            final(self).next_webview_id == old(self).next_webview_id,
            final(self).repaint_pending == old(self).repaint_pending,
            final(self).state == old(self).state,
            final(self).surface_width == old(self).surface_width,
            final(self).surface_height == old(self).surface_height,
    {
        self.shutting_down = true;
        EngineAction::BeginShutdown
    }

    /// The final engine teardown, performed exactly once after the loop
    /// exits.
    pub fn deinit(&self) -> (r: EngineAction)
        ensures
            r is Deinit,
    {
        EngineAction::Deinit
    }
}

/// Law: consuming the pending repaint is take-and-clear. With a frame
/// pending and a webview focused, one paint attempt triggers a paint, and
/// a second attempt without an intervening frame-ready notice triggers
/// none.
pub proof fn lemma_consume_repaint_exactly_once(b: AppBrowser)
    requires
        spec_paint_returns(b),
    ensures
        spec_paint_returns(b) == true,
        spec_paint_returns(spec_after_paint(b)) == false,
{
}

} // verus!
