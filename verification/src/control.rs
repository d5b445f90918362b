//! The controller: what the program does about each window message, as a
//! state machine that asks for one outside action (an `Effect`) at a time and
//! is told how it went (an `Outcome`).
//!
//! A session starts with `Controller::begin` (a window message) or
//! `Controller::begin_startup` and runs through `Controller::step` until a
//! final effect (`Reply`, `DefaultReply`, `Quit`, `Abort`) returns the
//! controller to `Phase::Idle`.
use vstd::prelude::*;
use crate::tray::{ID_TRAY_EXIT, ID_TRAY_TOGGLE, WM_TRAYICON};

verus! {

/// `WM_DESTROY`.
pub const WM_DESTROY: u32 = 0x0002;

/// `WM_COMMAND`.
pub const WM_COMMAND: u32 = 0x0111;

/// `WM_HOTKEY`.
pub const WM_HOTKEY: u32 = 0x0312;

/// `WM_LBUTTONUP`.
pub const WM_LBUTTONUP: u32 = 0x0202;

/// `WM_RBUTTONUP`.
pub const WM_RBUTTONUP: u32 = 0x0205;

/// The message that the keyboard hook posts for a hotkey press (`WM_APP + 2`).
pub const WM_APP_TRIGGER_MUTE: u32 = 0x8002;

/// The shortest time between two hotkey triggers that both toggle: 250 ms,
/// in nanoseconds.
pub const DEBOUNCE_NS: u64 = 250_000_000;

/// Which default capture endpoint to ask for.
#[derive(PartialEq, Eq, Structural, Clone, Copy, Debug)]
pub enum Role {
    Communications,
    Console,
}

/// One outside action, asked for by the controller.
#[derive(PartialEq, Eq, Structural, Clone, Copy, Debug)]
pub enum Effect {
    /// Create the audio device enumerator.
    CreateEnumerator,
    /// Ask the enumerator for the default capture endpoint of a role.
    DefaultEndpoint(Role),
    /// Activate the endpoint volume control of the endpoint found; on
    /// success it replaces the one in use.
    ActivateEndpoint,
    /// Read the mute state through the endpoint volume control in use.
    ReadMute,
    /// Set the mute state through the endpoint volume control in use.
    WriteMute(bool),
    /// Add the tray icon, showing a mute state.
    TrayAdd(bool),
    /// Change the tray icon to show a mute state.
    TrayModify(bool),
    /// Show the context menu for a mute state.
    ShowMenu(bool),
    /// Play the chime of a mute state.
    PlayFeedback(bool),
    /// Answer the window message with 0.
    Reply,
    /// Answer the window message as the default window procedure does.
    DefaultReply,
    /// Post the quit message, then answer the window message with 0.
    Quit,
    /// Stop the program: no endpoint could be acquired at startup.
    Abort,
}

/// How an outside action went.
#[derive(PartialEq, Eq, Structural, Clone, Copy, Debug)]
pub enum Outcome {
    /// It succeeded (or gives nothing back).
    Done,
    /// It failed.
    Failed,
    /// The mute state was read.
    Muted(bool),
}

/// What a window message asks for.
#[derive(PartialEq, Eq, Structural, Clone, Copy, Debug)]
pub enum Route {
    /// The taskbar was recreated: add the tray icon again.
    ReAddTray,
    /// A hotkey was pressed: toggle, unless one was accepted under 250 ms ago.
    Trigger,
    /// Right click on the tray icon: show the context menu.
    Menu,
    /// Left click on the tray icon, or the menu's toggle item: toggle.
    Toggle,
    /// The menu's exit item, or the window is destroyed: quit.
    Quit,
    /// Nothing to do; answer 0.
    Ignore,
    /// Not the program's: the default window procedure answers.
    Default,
}

/// Progress through acquiring an endpoint volume control.
#[derive(PartialEq, Eq, Structural, Clone, Copy, Debug)]
pub enum Stage {
    Enumerator,
    Communications,
    Console,
    Activate,
}

/// Progress through one operation on the endpoint: the operation itself,
/// or the re-acquisition of the endpoint after the first attempt failed.
#[derive(PartialEq, Eq, Structural, Clone, Copy, Debug)]
pub enum Access {
    Attempt(bool),
    Acquire(Stage),
}

/// What the mute state is read for.
#[derive(PartialEq, Eq, Structural, Clone, Copy, Debug)]
pub enum Goal {
    Startup,
    ReAdd,
    Menu,
    Toggle,
}

/// Which tray request is pending.
#[derive(PartialEq, Eq, Structural, Clone, Copy, Debug)]
pub enum Notify {
    /// An add for an icon not yet added.
    Add,
    /// A modify of an icon already added.
    Modify,
    /// An add after a failed modify.
    AddAfterModify,
    /// An add after the taskbar was recreated.
    ReAdd,
}

/// What follows the tray request.
#[derive(PartialEq, Eq, Structural, Clone, Copy, Debug)]
pub enum Then {
    Feedback,
    Finish,
}

/// Where the controller is in a session.
#[derive(PartialEq, Eq, Structural, Clone, Copy, Debug)]
pub enum Phase {
    Idle,
    Setup(Stage),
    Reading(Goal, Access),
    Writing(bool, Access),
    Notifying(bool, Notify, Then),
    Menu,
    Feedback,
}

/// The controller's state as a value.
pub struct ControllerModel {
    pub phase: Phase,
    /// Whether the tray icon is known to be added.
    pub tray_added: bool,
    /// When the last hotkey trigger was accepted, in nanoseconds on a
    /// monotonic clock; `None` before the first.
    pub last_trigger: Option<u64>,
}

pub open spec fn initial_model() -> ControllerModel {
    ControllerModel { phase: Phase::Idle, tray_added: false, last_trigger: None }
}

/// The effects that end a session.
pub open spec fn is_final(e: Effect) -> bool {
    ||| e == Effect::Reply
    ||| e == Effect::DefaultReply
    ||| e == Effect::Quit
    ||| e == Effect::Abort
}

/// The low 16 bits of a message parameter.
pub open spec fn low_word_of_lparam(lparam: isize) -> u32 {
    (lparam & 0xFFFF) as u32
}

pub open spec fn low_word_of_wparam(wparam: usize) -> usize {
    wparam & 0xFFFF
}

/// What a window message asks for. `attached` tells whether the program's
/// state is attached to the window yet; `taskbar_msg` is the registered
/// `TaskbarCreated` message, or 0 if none.
pub open spec fn route_of(msg: u32, wparam: usize, lparam: isize, taskbar_msg: u32, attached: bool) -> Route {
    if !attached {
        Route::Default
    } else if taskbar_msg != 0 && msg == taskbar_msg {
        Route::ReAddTray
    } else if msg == WM_HOTKEY || msg == WM_APP_TRIGGER_MUTE {
        Route::Trigger
    } else if msg == WM_TRAYICON {
        if low_word_of_lparam(lparam) == WM_RBUTTONUP {
            Route::Menu
        } else if low_word_of_lparam(lparam) == WM_LBUTTONUP {
            Route::Toggle
        } else {
            Route::Ignore
        }
    } else if msg == WM_COMMAND {
        if low_word_of_wparam(wparam) == ID_TRAY_TOGGLE {
            Route::Toggle
        } else if low_word_of_wparam(wparam) == ID_TRAY_EXIT {
            Route::Quit
        } else {
            Route::Ignore
        }
    } else if msg == WM_DESTROY {
        Route::Quit
    } else {
        Route::Default
    }
}

/// Whether a hotkey trigger at `now` toggles: none was accepted before, or
/// the last one was accepted at least 250 ms earlier (an earlier clock
/// reading counts as no time passed).
pub open spec fn debounce_passes(last: Option<u64>, now: u64) -> bool {
    match last {
        None => true,
        Some(t) => t <= now && now - t >= DEBOUNCE_NS,
    }
}

/// The routes that need the program's state; they are turned away while a
/// session is under way.
pub open spec fn needs_state(r: Route) -> bool {
    r == Route::ReAddTray || r == Route::Trigger || r == Route::Menu || r == Route::Toggle
}

pub open spec fn with_phase(c: ControllerModel, p: Phase) -> ControllerModel {
    ControllerModel { phase: p, ..c }
}

pub open spec fn first_read(goal: Goal) -> Phase {
    Phase::Reading(goal, Access::Attempt(false))
}

/// Starting a session for a window message routed to `r`, at time `now`.
pub open spec fn begin_model(c: ControllerModel, r: Route, now: u64) -> (ControllerModel, Effect) {
    if r == Route::Default {
        (c, Effect::DefaultReply)
    } else if r == Route::Ignore {
        (c, Effect::Reply)
    } else if r == Route::Quit {
        (c, Effect::Quit)
    } else if c.phase != Phase::Idle {
        (c, Effect::Reply)
    } else if r == Route::ReAddTray {
        (with_phase(c, first_read(Goal::ReAdd)), Effect::ReadMute)
    } else if r == Route::Menu {
        (with_phase(c, first_read(Goal::Menu)), Effect::ReadMute)
    } else if r == Route::Toggle {
        (with_phase(c, first_read(Goal::Toggle)), Effect::ReadMute)
    } else if debounce_passes(c.last_trigger, now) {
        (
            ControllerModel {
                phase: first_read(Goal::Toggle),
                tray_added: c.tray_added,
                last_trigger: Some(now),
            },
            Effect::ReadMute,
        )
    } else {
        (c, Effect::Reply)
    }
}

/// Starting the startup session: acquire the endpoint, read the mute state,
/// show the tray icon.
pub open spec fn begin_startup_model(c: ControllerModel) -> (ControllerModel, Effect) {
    if c.phase == Phase::Idle {
        (with_phase(c, Phase::Setup(Stage::Enumerator)), Effect::CreateEnumerator)
    } else {
        (c, Effect::Reply)
    }
}

/// The result of one step of endpoint acquisition.
pub enum Acquired {
    Next(Stage, Effect),
    Ready,
    Lost,
}

/// Endpoint acquisition: the enumerator, then the default communications capture
/// endpoint or, failing that, the default console one, then its
/// volume control; any other failure loses the endpoint.
pub open spec fn acquire_next(stage: Stage, o: Outcome) -> Acquired {
    let ok = o != Outcome::Failed;
    match stage {
        Stage::Enumerator => if ok {
            Acquired::Next(Stage::Communications, Effect::DefaultEndpoint(Role::Communications))
        } else {
            Acquired::Lost
        },
        Stage::Communications => if ok {
            Acquired::Next(Stage::Activate, Effect::ActivateEndpoint)
        } else {
            Acquired::Next(Stage::Console, Effect::DefaultEndpoint(Role::Console))
        },
        Stage::Console => if ok {
            Acquired::Next(Stage::Activate, Effect::ActivateEndpoint)
        } else {
            Acquired::Lost
        },
        Stage::Activate => if ok {
            Acquired::Ready
        } else {
            Acquired::Lost
        },
    }
}

/// The result of one step of an operation on the endpoint.
pub enum Accessed {
    Continue(Access, Effect),
    Succeeded,
    Failed,
}

/// An operation on the endpoint: on a failed first attempt the endpoint is
/// acquired anew and the operation tried once more.
pub open spec fn access_next(a: Access, op_ok: bool, o: Outcome, op: Effect) -> Accessed {
    match a {
        Access::Attempt(retried) => if op_ok {
            Accessed::Succeeded
        } else if !retried {
            Accessed::Continue(Access::Acquire(Stage::Enumerator), Effect::CreateEnumerator)
        } else {
            Accessed::Failed
        },
        Access::Acquire(stage) => match acquire_next(stage, o) {
            Acquired::Next(s, e) => Accessed::Continue(Access::Acquire(s), e),
            Acquired::Ready => Accessed::Continue(Access::Attempt(true), op),
            Acquired::Lost => Accessed::Failed,
        },
    }
}

pub open spec fn finish(c: ControllerModel) -> (ControllerModel, Effect) {
    (with_phase(c, Phase::Idle), Effect::Reply)
}

/// Showing mute state `v` in the tray: modify the icon if it was added, add
/// it otherwise.
pub open spec fn show_in_tray(c: ControllerModel, v: bool, then: Then) -> (ControllerModel, Effect) {
    if c.tray_added {
        (with_phase(c, Phase::Notifying(v, Notify::Modify, then)), Effect::TrayModify(v))
    } else {
        (with_phase(c, Phase::Notifying(v, Notify::Add, then)), Effect::TrayAdd(v))
    }
}

/// What follows a tray request: the chime of `v`, or the end.
pub open spec fn after_tray(c: ControllerModel, v: bool, then: Then) -> (ControllerModel, Effect) {
    match then {
        Then::Feedback => (with_phase(c, Phase::Feedback), Effect::PlayFeedback(v)),
        Then::Finish => finish(c),
    }
}

/// What follows reading mute state `m`.
pub open spec fn after_read(c: ControllerModel, goal: Goal, m: bool) -> (ControllerModel, Effect) {
    match goal {
        Goal::Startup => show_in_tray(c, m, Then::Finish),
        Goal::ReAdd => (with_phase(c, Phase::Notifying(m, Notify::ReAdd, Then::Finish)), Effect::TrayAdd(m)),
        Goal::Menu => (with_phase(c, Phase::Menu), Effect::ShowMenu(m)),
        Goal::Toggle => (with_phase(c, Phase::Writing(!m, Access::Attempt(false))), Effect::WriteMute(!m)),
    }
}

/// What follows a failed read: a toggle gives up; the others go on as if
/// the microphone were live.
pub open spec fn after_failed_read(c: ControllerModel, goal: Goal) -> (ControllerModel, Effect) {
    match goal {
        Goal::Toggle => finish(c),
        _ => after_read(c, goal, false),
    }
}

pub open spec fn read_value(o: Outcome) -> bool {
    match o {
        Outcome::Muted(m) => m,
        _ => false,
    }
}

/// One step: the controller in state `c` is told outcome `o` of the effect it
/// asked for last.
pub open spec fn step_model(c: ControllerModel, o: Outcome) -> (ControllerModel, Effect) {
    let ok = o != Outcome::Failed;
    match c.phase {
        Phase::Idle => (c, Effect::Reply),
        Phase::Setup(stage) => match acquire_next(stage, o) {
            Acquired::Next(s, e) => (with_phase(c, Phase::Setup(s)), e),
            Acquired::Ready => (with_phase(c, first_read(Goal::Startup)), Effect::ReadMute),
            Acquired::Lost => (with_phase(c, Phase::Idle), Effect::Abort),
        },
        Phase::Reading(goal, a) => match access_next(a, o is Muted, o, Effect::ReadMute) {
            Accessed::Continue(a2, e) => (with_phase(c, Phase::Reading(goal, a2)), e),
            Accessed::Succeeded => after_read(c, goal, read_value(o)),
            Accessed::Failed => after_failed_read(c, goal),
        },
        Phase::Writing(v, a) => match access_next(a, ok, o, Effect::WriteMute(v)) {
            Accessed::Continue(a2, e) => (with_phase(c, Phase::Writing(v, a2)), e),
            Accessed::Succeeded => show_in_tray(c, v, Then::Feedback),
            Accessed::Failed => finish(c),
        },
        Phase::Notifying(v, n, then) => match n {
            Notify::Modify => if ok {
                after_tray(c, v, then)
            } else {
                (with_phase(c, Phase::Notifying(v, Notify::AddAfterModify, then)), Effect::TrayAdd(v))
            },
            Notify::AddAfterModify => after_tray(c, v, then),
            Notify::Add => if ok {
                after_tray(ControllerModel { tray_added: true, ..c }, v, then)
            } else {
                after_tray(c, v, then)
            },
            Notify::ReAdd => after_tray(ControllerModel { tray_added: true, ..c }, v, then),
        },
        Phase::Menu => finish(c),
        Phase::Feedback => finish(c),
    }
}

/// The controller of the program's state: the session under way, whether
/// the tray icon is added, and when the last hotkey trigger was accepted.
pub struct Controller {
    phase: Phase,
    tray_added: bool,
    last_trigger: Option<u64>,
}

impl View for Controller {
    type V = ControllerModel;

    closed spec fn view(&self) -> ControllerModel {
        ControllerModel { phase: self.phase, tray_added: self.tray_added, last_trigger: self.last_trigger }
    }
}

/// What a window message asks for (see `route_of`).
pub fn route(msg: u32, wparam: usize, lparam: isize, taskbar_msg: u32, attached: bool) -> (r: Route)
    ensures
        r == route_of(msg, wparam, lparam, taskbar_msg, attached),
{
    if !attached {
        Route::Default
    } else if taskbar_msg != 0 && msg == taskbar_msg {
        Route::ReAddTray
    } else if msg == WM_HOTKEY || msg == WM_APP_TRIGGER_MUTE {
        Route::Trigger
    } else if msg == WM_TRAYICON {
        let event: u32 = (lparam & 0xFFFF) as u32;
        if event == WM_RBUTTONUP {
            Route::Menu
        } else if event == WM_LBUTTONUP {
            Route::Toggle
        } else {
            Route::Ignore
        }
    } else if msg == WM_COMMAND {
        let cmd: usize = wparam & 0xFFFF;
        if cmd == ID_TRAY_TOGGLE {
            Route::Toggle
        } else if cmd == ID_TRAY_EXIT {
            Route::Quit
        } else {
            Route::Ignore
        }
    } else if msg == WM_DESTROY {
        Route::Quit
    } else {
        Route::Default
    }
}

/// Whether a hotkey trigger at `now` toggles (see `debounce_passes`).
pub fn debounce_check(last: Option<u64>, now: u64) -> (r: bool)
    ensures
        r == debounce_passes(last, now),
{
    match last {
        None => true,
        Some(t) => t <= now && now - t >= DEBOUNCE_NS,
    }
}

/// The answer to a window message routed to `r` when the program's state
/// cannot be reached (not attached yet, or in use by a session under way):
/// what `Controller::begin` answers while a session is under way.
pub fn answer_without_state(r: Route) -> (e: Effect)
    ensures
        forall|c: ControllerModel, now: u64|
            c.phase != Phase::Idle ==> #[trigger] begin_model(c, r, now) == (c, e),
        is_final(e),
{
    if r == Route::Default {
        Effect::DefaultReply
    } else if r == Route::Quit {
        Effect::Quit
    } else {
        Effect::Reply
    }
}

fn acquire_step(stage: Stage, o: Outcome) -> (r: Acquired)
    ensures
        r == acquire_next(stage, o),
{
    let ok = o != Outcome::Failed;
    match stage {
        Stage::Enumerator => if ok {
            Acquired::Next(Stage::Communications, Effect::DefaultEndpoint(Role::Communications))
        } else {
            Acquired::Lost
        },
        Stage::Communications => if ok {
            Acquired::Next(Stage::Activate, Effect::ActivateEndpoint)
        } else {
            Acquired::Next(Stage::Console, Effect::DefaultEndpoint(Role::Console))
        },
        Stage::Console => if ok {
            Acquired::Next(Stage::Activate, Effect::ActivateEndpoint)
        } else {
            Acquired::Lost
        },
        Stage::Activate => if ok {
            Acquired::Ready
        } else {
            Acquired::Lost
        },
    }
}

fn access_step(a: Access, op_ok: bool, o: Outcome, op: Effect) -> (r: Accessed)
    ensures
        r == access_next(a, op_ok, o, op),
{
    match a {
        Access::Attempt(retried) => if op_ok {
            Accessed::Succeeded
        } else if !retried {
            Accessed::Continue(Access::Acquire(Stage::Enumerator), Effect::CreateEnumerator)
        } else {
            Accessed::Failed
        },
        Access::Acquire(stage) => match acquire_step(stage, o) {
            Acquired::Next(s, e) => Accessed::Continue(Access::Acquire(s), e),
            Acquired::Ready => Accessed::Continue(Access::Attempt(true), op),
            Acquired::Lost => Accessed::Failed,
        },
    }
}

impl Controller {
    /// A controller with no session under way, no tray icon added and no
    /// hotkey trigger accepted yet.
    pub fn new() -> (c: Controller)
        ensures
            c@ == initial_model(),
    {
        Controller { phase: Phase::Idle, tray_added: false, last_trigger: None }
    }

    /// Whether a session is under way.
    pub fn is_busy(&self) -> (r: bool)
        ensures
            r == (self@.phase != Phase::Idle),
    {
        self.phase != Phase::Idle
    }

    /// Whether the tray icon is known to be added.
    pub fn tray_added(&self) -> (r: bool)
        ensures
            r == self@.tray_added,
    {
        self.tray_added
    }

    /// When the last hotkey trigger was accepted.
    pub fn last_trigger(&self) -> (r: Option<u64>)
        ensures
            r == self@.last_trigger,
    {
        self.last_trigger
    }

    /// Starts the startup session and returns its first effect.
    pub fn begin_startup(&mut self) -> (e: Effect)
        ensures
            (final(self)@, e) == begin_startup_model(old(self)@),
    {
        if self.phase == Phase::Idle {
            self.phase = Phase::Setup(Stage::Enumerator);
            Effect::CreateEnumerator
        } else {
            Effect::Reply
        }
    }

    /// Starts the session for a window message routed to `r`, received at
    /// time `now` (nanoseconds on a monotonic clock), and returns its first
    /// effect.
    pub fn begin(&mut self, r: Route, now: u64) -> (e: Effect)
        ensures
            (final(self)@, e) == begin_model(old(self)@, r, now),
    {
        if r == Route::Default {
            Effect::DefaultReply
        } else if r == Route::Ignore {
            Effect::Reply
        } else if r == Route::Quit {
            Effect::Quit
        } else if self.phase != Phase::Idle {
            Effect::Reply
        } else if r == Route::ReAddTray {
            self.phase = Phase::Reading(Goal::ReAdd, Access::Attempt(false));
            Effect::ReadMute
        } else if r == Route::Menu {
            self.phase = Phase::Reading(Goal::Menu, Access::Attempt(false));
            Effect::ReadMute
        } else if r == Route::Toggle {
            self.phase = Phase::Reading(Goal::Toggle, Access::Attempt(false));
            Effect::ReadMute
        } else if debounce_check(self.last_trigger, now) {
            self.phase = Phase::Reading(Goal::Toggle, Access::Attempt(false));
            self.last_trigger = Some(now);
            Effect::ReadMute
        } else {
            Effect::Reply
        }
    }

    fn finish(&mut self) -> (e: Effect)
        ensures
            (final(self)@, e) == finish(old(self)@),
    {
        self.phase = Phase::Idle;
        Effect::Reply
    }

    fn show_in_tray(&mut self, v: bool, then: Then) -> (e: Effect)
        ensures
            (final(self)@, e) == show_in_tray(old(self)@, v, then),
    {
        if self.tray_added {
            self.phase = Phase::Notifying(v, Notify::Modify, then);
            Effect::TrayModify(v)
        } else {
            self.phase = Phase::Notifying(v, Notify::Add, then);
            Effect::TrayAdd(v)
        }
    }

    fn after_tray(&mut self, v: bool, then: Then) -> (e: Effect)
        ensures
            (final(self)@, e) == after_tray(old(self)@, v, then),
    {
        match then {
            Then::Feedback => {
                self.phase = Phase::Feedback;
                Effect::PlayFeedback(v)
            },
            Then::Finish => self.finish(),
        }
    }

    fn after_read(&mut self, goal: Goal, m: bool) -> (e: Effect)
        ensures
            (final(self)@, e) == after_read(old(self)@, goal, m),
    {
        match goal {
            Goal::Startup => self.show_in_tray(m, Then::Finish),
            Goal::ReAdd => {
                self.phase = Phase::Notifying(m, Notify::ReAdd, Then::Finish);
                Effect::TrayAdd(m)
            },
            Goal::Menu => {
                self.phase = Phase::Menu;
                Effect::ShowMenu(m)
            },
            Goal::Toggle => {
                self.phase = Phase::Writing(!m, Access::Attempt(false));
                Effect::WriteMute(!m)
            },
        }
    }

    /// Tells the controller how its last effect went; returns the next
    /// effect.
    pub fn step(&mut self, o: Outcome) -> (e: Effect)
        ensures
            (final(self)@, e) == step_model(old(self)@, o),
    {
        let ok = o != Outcome::Failed;
        match self.phase {
            Phase::Idle => Effect::Reply,
            Phase::Setup(stage) => match acquire_step(stage, o) {
                Acquired::Next(s, e) => {
                    self.phase = Phase::Setup(s);
                    e
                },
                Acquired::Ready => {
                    self.phase = Phase::Reading(Goal::Startup, Access::Attempt(false));
                    Effect::ReadMute
                },
                Acquired::Lost => {
                    self.phase = Phase::Idle;
                    Effect::Abort
                },
            },
            Phase::Reading(goal, a) => {
                let (read_ok, m) = match o {
                    Outcome::Muted(m) => (true, m),
                    _ => (false, false),
                };
                match access_step(a, read_ok, o, Effect::ReadMute) {
                    Accessed::Continue(a2, e) => {
                        self.phase = Phase::Reading(goal, a2);
                        e
                    },
                    Accessed::Succeeded => self.after_read(goal, m),
                    Accessed::Failed => match goal {
                        Goal::Toggle => self.finish(),
                        _ => self.after_read(goal, false),
                    },
                }
            },
            Phase::Writing(v, a) => match access_step(a, ok, o, Effect::WriteMute(v)) {
                Accessed::Continue(a2, e) => {
                    self.phase = Phase::Writing(v, a2);
                    e
                },
                Accessed::Succeeded => self.show_in_tray(v, Then::Feedback),
                Accessed::Failed => self.finish(),
            },
            Phase::Notifying(v, n, then) => match n {
                Notify::Modify => if ok {
                    self.after_tray(v, then)
                } else {
                    self.phase = Phase::Notifying(v, Notify::AddAfterModify, then);
                    Effect::TrayAdd(v)
                },
                Notify::AddAfterModify => self.after_tray(v, then),
                Notify::Add => {
                    if ok {
                        self.tray_added = true;
                    }
                    self.after_tray(v, then)
                },
                Notify::ReAdd => {
                    self.tray_added = true;
                    self.after_tray(v, then)
                },
            },
            Phase::Menu => self.finish(),
            Phase::Feedback => self.finish(),
        }
    }
}

} // verus!
