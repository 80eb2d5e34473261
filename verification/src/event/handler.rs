//! The event pump: one verified step per loop iteration.
//!
//! Each iteration the driver takes the repaint deadline from the UI,
//! computes the wait bound, blocks on the native queue, and hands the
//! outcome here. A timed-out wait synthesizes exactly one draw command —
//! the only command ever produced without a real event, and only possible
//! after a bounded wait was requested. An arriving event is offered to the
//! UI first; only if chrome does not keep it is it translated for the
//! engine, so toolbar clicks never leak into page content.

use crate::app::AppCommand;
use crate::browser::BrowserCommand;
use crate::engine::{InputEvent, MouseMoveEvent, DevicePoint};
use crate::event::sdl2_servo::{
    into_keyboard_event, into_mouse_button_event, into_mouse_move_event, into_wheel_event,
    mouse_button_event_at, wheel_event_at,
};
use crate::event::user::{handle_user, user_cmd};
use crate::event::window::{handle_window, window_cmd};
use crate::input::handler::controllers_after;
use crate::input::keyboard::keyboard_event_of;
use crate::input::mouse::{engine_button_of, into_engine_button};
use crate::native::NativeEvent;
use crate::repaint::{WaitOutcome, WaitSpec};
use crate::ui::{gated_consumed, ui_handle_rel, AppUi};
use crate::egui_sdl2::{ui_response_of, UiCtx};
use vstd::prelude::*;

verus! {

/// Event pump state: the instance ids of the connected game controllers.
pub struct AppEventHandler {
    pub game_controllers: Vec<u32>,
}

/// The engine-bound commands one native event translates to, with pointer
/// positions mapped into the content surface by the chrome inset.
pub open spec fn translate_cmds(e: NativeEvent, toolbar_height: u32) -> Seq<AppCommand> {
    match e {
        NativeEvent::MouseButtonUp { button, x, y } => match engine_button_of(button) {
            Some(b) => seq![
                AppCommand::Browser(
                    BrowserCommand::HandleInput(
                        InputEvent::MouseButton(
                            mouse_button_event_at(
                                b,
                                x as i64,
                                (y - toolbar_height) as i64,
                                false,
                            ),
                        ),
                    ),
                ),
            ],
            None => Seq::empty(),
        },
        NativeEvent::MouseButtonDown { button, x, y } => match engine_button_of(button) {
            Some(b) => seq![
                AppCommand::Browser(
                    BrowserCommand::HandleInput(
                        InputEvent::MouseButton(
                            mouse_button_event_at(
                                b,
                                x as i64,
                                (y - toolbar_height) as i64,
                                true,
                            ),
                        ),
                    ),
                ),
            ],
            None => Seq::empty(),
        },
        NativeEvent::MouseMotion { x, y } => seq![
            AppCommand::Browser(
                BrowserCommand::HandleInput(
                    InputEvent::MouseMove(
                        MouseMoveEvent {
                            point: DevicePoint {
                                x: x as i64,
                                y: (y - toolbar_height) as i64,
                            },
                        },
                    ),
                ),
            ),
        ],
        NativeEvent::MouseWheel { x, y, mouse_x, mouse_y } => seq![
            AppCommand::Browser(
                BrowserCommand::HandleInput(
                    InputEvent::Wheel(
                        wheel_event_at(
                            x,
                            y,
                            mouse_x as i64,
                            (mouse_y - toolbar_height) as i64,
                        ),
                    ),
                ),
            ),
        ],
        NativeEvent::KeyDown { keycode, scancode, keymod, repeat } => {
            match keyboard_event_of(keycode, scancode, keymod, true, repeat) {
                Some(ev) => seq![
                    AppCommand::Browser(BrowserCommand::HandleInput(InputEvent::Keyboard(ev))),
                ],
                None => Seq::empty(),
            }
        },
        NativeEvent::KeyUp { keycode, scancode, keymod, repeat } => {
            match keyboard_event_of(keycode, scancode, keymod, false, repeat) {
                Some(ev) => seq![
                    AppCommand::Browser(BrowserCommand::HandleInput(InputEvent::Keyboard(ev))),
                ],
                None => Seq::empty(),
            }
        },
        NativeEvent::Quit => seq![AppCommand::Shutdown],
        NativeEvent::User { code } => {
            if 0 <= code < 2 {
                match user_cmd(code) {
                    Some(c) => seq![c],
                    None => Seq::empty(),
                }
            } else {
                Seq::empty()
            }
        },
        NativeEvent::Window(w) => match window_cmd(w) {
            Some(c) => seq![c],
            None => Seq::empty(),
        },
        _ => Seq::empty(),
    }
}

/// Everything one dequeued event makes the pump emit: a draw request if
/// the UI wants a repaint, then — unless chrome consumed the event — its
/// engine-bound translation.
pub open spec fn wait_emitted(pre_ui: AppUi, e: NativeEvent, ctx: UiCtx) -> Seq<AppCommand> {
    let draw: Seq<AppCommand> = if ui_response_of(pre_ui.state.modifiers, e, ctx).repaint {
        seq![AppCommand::Draw]
    } else {
        Seq::empty()
    };
    let rest: Seq<AppCommand> = if gated_consumed(pre_ui, e, ctx) {
        Seq::empty()
    } else {
        translate_cmds(e, pre_ui.toolbar_height)
    };
    draw + rest
}

impl AppEventHandler {
    /// Builds the pump from the instance ids of the controllers connected
    /// at startup, as enumerated by the driver.
    pub fn new(connected: Vec<u32>) -> (r: Self)
        ensures
            r.game_controllers@ == connected@,
    {
        AppEventHandler { game_controllers: connected }
    }

    /// One pump step. `waited` is the bound the scheduler computed for the
    /// wait whose outcome is handed in; a timeout can only be observed
    /// after a bounded wait, because a missing deadline blocks
    /// indefinitely.
    pub fn wait(
        &mut self,
        ui: &mut AppUi,
        waited: WaitSpec,
        outcome: &WaitOutcome,
        ctx: &UiCtx,
    ) -> (r: Vec<AppCommand>)
        requires
            *outcome is TimedOut ==> waited is BoundedMs,
        ensures
            *outcome is TimedOut ==> r@ == seq![AppCommand::Draw] && *final(ui) == *old(ui)
                && *final(self) == *old(self),
            *outcome matches WaitOutcome::Event(e) ==> {
                &&& r@ == wait_emitted(*old(ui), e, *ctx)
                &&& ui_handle_rel(*old(ui), *final(ui), e, *ctx)
                &&& final(self).game_controllers@ == (if gated_consumed(*old(ui), e, *ctx) {
                    old(self).game_controllers@
                } else {
                    controllers_after(old(self).game_controllers@, e)
                })
            },
    {
        let event = match outcome {
            WaitOutcome::TimedOut => {
                let mut r: Vec<AppCommand> = Vec::new();
                r.push(AppCommand::Draw);
                assert(r@ =~= seq![AppCommand::Draw]);
                return r;
            },
            WaitOutcome::Event(event) => event,
        };
        let mut commands: Vec<AppCommand> = Vec::new();
        let resp = ui.handle_event(event, ctx);
        if resp.repaint {
            commands.push(AppCommand::Draw);
        }
        if resp.consumed {
            assert(commands@ =~= wait_emitted(*old(ui), *event, *ctx));
            return commands;
        }
        match event {
            NativeEvent::ControllerDeviceAdded { which } => {
                self.game_controllers.push(*which);
            },
            NativeEvent::ControllerDeviceRemoved { which } => {
                let w: u32 = *which;
                let mut kept: Vec<u32> = Vec::new();
                let n = self.game_controllers.len();
                let mut i: usize = 0;
                while i < n
                    invariant
                        0 <= i <= n,
                        n == self.game_controllers@.len(),
                        kept@ == self.game_controllers@.take(i as int).filter(
                            |id: u32| id != w,
                        ),
                    decreases n - i,
                {
                    let id = self.game_controllers[i];
                    assert(self.game_controllers@.take(i as int + 1).drop_last()
                        == self.game_controllers@.take(i as int));
                    reveal_with_fuel(Seq::filter, 2);
                    if id != w {
                        kept.push(id);
                    }
                    i += 1;
                }
                assert(self.game_controllers@.take(n as int) == self.game_controllers@);
                self.game_controllers = kept;
            },
            NativeEvent::MouseButtonUp { button, x, y } => {
                match into_engine_button(*button) {
                    Some(b) => {
                        let (rx, ry) = ui.into_browser_rel_pos(*x, *y);
                        let ev = into_mouse_button_event(b, rx, ry, false);
                        commands.push(
                            AppCommand::Browser(
                                BrowserCommand::HandleInput(InputEvent::MouseButton(ev)),
                            ),
                        );
                    },
                    None => {},
                }
            },
            NativeEvent::MouseButtonDown { button, x, y } => {
                match into_engine_button(*button) {
                    Some(b) => {
                        let (rx, ry) = ui.into_browser_rel_pos(*x, *y);
                        let ev = into_mouse_button_event(b, rx, ry, true);
                        commands.push(
                            AppCommand::Browser(
                                BrowserCommand::HandleInput(InputEvent::MouseButton(ev)),
                            ),
                        );
                    },
                    None => {},
                }
            },
            NativeEvent::MouseMotion { x, y } => {
                let (rx, ry) = ui.into_browser_rel_pos(*x, *y);
                let ev = into_mouse_move_event(rx, ry);
                commands.push(
                    AppCommand::Browser(BrowserCommand::HandleInput(InputEvent::MouseMove(ev))),
                );
            },
            NativeEvent::MouseWheel { x, y, mouse_x, mouse_y } => {
                let (rx, ry) = ui.into_browser_rel_pos(*mouse_x, *mouse_y);
                let ev = into_wheel_event(*x, *y, rx, ry);
                commands.push(
                    AppCommand::Browser(BrowserCommand::HandleInput(InputEvent::Wheel(ev))),
                );
            },
            NativeEvent::KeyDown { keycode, scancode, keymod, repeat } => {
                match into_keyboard_event(*keycode, *scancode, *keymod, true, *repeat) {
                    Some(ev) => {
                        commands.push(
                            AppCommand::Browser(
                                BrowserCommand::HandleInput(InputEvent::Keyboard(ev)),
                            ),
                        );
                    },
                    None => {},
                }
            },
            NativeEvent::KeyUp { keycode, scancode, keymod, repeat } => {
                match into_keyboard_event(*keycode, *scancode, *keymod, false, *repeat) {
                    Some(ev) => {
                        commands.push(
                            AppCommand::Browser(
                                BrowserCommand::HandleInput(InputEvent::Keyboard(ev)),
                            ),
                        );
                    },
                    None => {},
                }
            },
            NativeEvent::Quit => {
                commands.push(AppCommand::Shutdown);
            },
            NativeEvent::User { code } => {
                if 0 <= *code && *code < 2 {
                    match handle_user(*code) {
                        Some(cmd) => {
                            commands.push(cmd);
                        },
                        None => {},
                    }
                }
            },
            NativeEvent::Window(win_event) => {
                match handle_window(*win_event) {
                    Some(cmd) => {
                        commands.push(cmd);
                    },
                    None => {},
                }
            },
            _ => {},
        }
        assert(commands@ =~= wait_emitted(*old(ui), *event, *ctx));
        commands
    }
}

/// Whether a native event is classified as a window close: the native
/// quit request or the window's own close sub-event.
pub open spec fn is_window_close(e: NativeEvent) -> bool {
    ||| e is Quit
    ||| e matches NativeEvent::Window(w) && w is Close
}

/// Law: for every native event classified as a window close, the pump's
/// emitted command sequence contains exactly one shutdown command and no
/// browser-bound command at all — whatever the UI's state and the
/// toolkit's answers, chrome can never swallow a close.
pub proof fn lemma_close_emits_one_shutdown(pre_ui: AppUi, e: NativeEvent, ctx: UiCtx)
    requires
        is_window_close(e),
    ensures
        ({
            let cmds = wait_emitted(pre_ui, e, ctx);
            &&& exists|i: int| 0 <= i < cmds.len() && #[trigger] cmds[i] is Shutdown
            &&& forall|i: int, j: int|
                0 <= i < cmds.len() && 0 <= j < cmds.len() && #[trigger] cmds[i] is Shutdown
                    && #[trigger] cmds[j] is Shutdown ==> i == j
            &&& forall|i: int|
                0 <= i < cmds.len() ==> !(#[trigger] cmds[i] matches AppCommand::Browser(_))
        }),
{
    let cmds = wait_emitted(pre_ui, e, ctx);
    if e is Quit {
        assert(cmds =~= seq![AppCommand::Shutdown]);
        assert(cmds[0] is Shutdown);
    } else {
        assert(cmds =~= seq![AppCommand::Draw, AppCommand::Shutdown]);
        assert(cmds[1] is Shutdown);
        assert(!(cmds[0] is Shutdown));
    }
}

/// Law: pointer translation is exact. For every pointer event at native
/// position y and chrome inset h, the forwarded engine event carries
/// x unchanged and exactly y - h — never rounded, never clamped.
pub proof fn lemma_pointer_chrome_offset(e: NativeEvent, toolbar_height: u32)
    ensures
        e matches NativeEvent::MouseMotion { x, y } ==> (translate_cmds(e, toolbar_height)[0]
            matches AppCommand::Browser(BrowserCommand::HandleInput(InputEvent::MouseMove(ev)))
            && ev.point.x == x && ev.point.y == y - toolbar_height),
        e matches NativeEvent::MouseButtonDown { button, x, y } ==> !(button is Unknown) ==> (
        translate_cmds(e, toolbar_height)[0] matches AppCommand::Browser(
            BrowserCommand::HandleInput(InputEvent::MouseButton(ev)),
        ) && ev.point.x == x && ev.point.y == y - toolbar_height),
        e matches NativeEvent::MouseButtonUp { button, x, y } ==> !(button is Unknown) ==> (
        translate_cmds(e, toolbar_height)[0] matches AppCommand::Browser(
            BrowserCommand::HandleInput(InputEvent::MouseButton(ev)),
        ) && ev.point.x == x && ev.point.y == y - toolbar_height),
        e matches NativeEvent::MouseButtonDown { button, .. } ==> button is Unknown
            ==> translate_cmds(e, toolbar_height) == Seq::<AppCommand>::empty(),
        e matches NativeEvent::MouseButtonUp { button, .. } ==> button is Unknown
            ==> translate_cmds(e, toolbar_height) == Seq::<AppCommand>::empty(),
        e matches NativeEvent::MouseWheel { x, y, mouse_x, mouse_y } ==> (translate_cmds(
            e,
            toolbar_height,
        )[0] matches AppCommand::Browser(BrowserCommand::HandleInput(InputEvent::Wheel(ev)))
            && ev.point.x == mouse_x && ev.point.y == mouse_y - toolbar_height),
{
}

/// Law: the UI's consumption check precedes engine translation — an event
/// chrome keeps is never forwarded to the engine, at most a draw request
/// comes out of it.
pub proof fn lemma_consumed_events_forward_nothing(pre_ui: AppUi, e: NativeEvent, ctx: UiCtx)
    requires
        gated_consumed(pre_ui, e, ctx),
    ensures
        ({
            let cmds = wait_emitted(pre_ui, e, ctx);
            forall|i: int| 0 <= i < cmds.len() ==> #[trigger] cmds[i] is Draw
        }),
{
}

} // verus!
