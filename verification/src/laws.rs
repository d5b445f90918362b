//! Laws of the controller: what every session guarantees, and what sessions
//! achieve against a model of the outside world in which the shell works and
//! the endpoint behaves as a store of the mute state.
use vstd::prelude::*;
use crate::control::{
    after_failed_read, after_read, after_tray, begin_model, route_of, begin_startup_model, debounce_passes, initial_model, needs_state, DEBOUNCE_NS, first_read, is_final, show_in_tray, step_model, with_phase, Access, ControllerModel, Effect, Goal, Notify, Outcome, Phase,
    Role, Route, Stage, Then,
};

verus! {

/// A model of the outside world, as the controller's effects touch it.
pub struct World {
    /// The microphone's mute state.
    pub muted: bool,
    /// Whether the endpoint volume control in use works.
    pub endpoint: bool,
    /// Whether a default communications capture endpoint exists.
    pub communications: bool,
    /// Whether a default console capture endpoint exists.
    pub console: bool,
    /// The mute state that the tray icon shows, if it is shown.
    pub icon: Option<bool>,
    /// The mute state whose chime was played last, if any.
    pub chime: Option<bool>,
    /// The mute state that the context menu was last shown for, if any.
    pub menu: Option<bool>,
}

/// How the world answers an effect: the endpoint reads back what was last
/// written, a default endpoint is found where one exists, activation gives a
/// working volume control, and the shell does what it is asked.
pub open spec fn respond(w: World, e: Effect) -> (World, Outcome) {
    match e {
        Effect::DefaultEndpoint(Role::Communications) => if w.communications {
            (w, Outcome::Done)
        } else {
            (w, Outcome::Failed)
        },
        Effect::DefaultEndpoint(Role::Console) => if w.console {
            (w, Outcome::Done)
        } else {
            (w, Outcome::Failed)
        },
        Effect::ActivateEndpoint => (World { endpoint: true, ..w }, Outcome::Done),
        Effect::ReadMute => if w.endpoint {
            (w, Outcome::Muted(w.muted))
        } else {
            (w, Outcome::Failed)
        },
        Effect::WriteMute(b) => if w.endpoint {
            (World { muted: b, ..w }, Outcome::Done)
        } else {
            (w, Outcome::Failed)
        },
        Effect::TrayAdd(b) => (World { icon: Some(b), ..w }, Outcome::Done),
        Effect::TrayModify(b) => (World { icon: Some(b), ..w }, Outcome::Done),
        Effect::ShowMenu(b) => (World { menu: Some(b), ..w }, Outcome::Done),
        Effect::PlayFeedback(b) => (World { chime: Some(b), ..w }, Outcome::Done),
        _ => (w, Outcome::Done),
    }
}

/// The most effects that endpoint acquisition from `s` can still ask for.
pub open spec fn stage_cost(s: Stage) -> nat {
    match s {
        Stage::Enumerator => 4,
        Stage::Communications => 3,
        Stage::Console => 2,
        Stage::Activate => 1,
    }
}

pub open spec fn access_cost(a: Access) -> nat {
    match a {
        Access::Attempt(false) => 6,
        Access::Attempt(true) => 1,
        Access::Acquire(s) => stage_cost(s) + 1,
    }
}

pub open spec fn then_cost(t: Then) -> nat {
    match t {
        Then::Feedback => 1,
        Then::Finish => 0,
    }
}

pub open spec fn goal_cost(g: Goal) -> nat {
    match g {
        Goal::Startup => 2,
        Goal::ReAdd => 1,
        Goal::Menu => 1,
        Goal::Toggle => 9,
    }
}

/// A bound on the effects that a session in phase `p` can still ask for
/// before its final one.
pub open spec fn cost(p: Phase) -> nat {
    match p {
        Phase::Idle => 0,
        Phase::Setup(s) => stage_cost(s) + 8,
        Phase::Reading(g, a) => access_cost(a) + goal_cost(g),
        Phase::Writing(_, a) => access_cost(a) + 3,
        Phase::Notifying(_, n, t) => (if n == Notify::Modify {
            2nat
        } else {
            1nat
        }) + then_cost(t),
        Phase::Menu => 1,
        Phase::Feedback => 1,
    }
}

/// Every step of a session under way brings it nearer its end: the cost of
/// the phase strictly falls, so a session ends after at most `cost` effects.
pub proof fn step_shortens_session(c: ControllerModel, o: Outcome)
    requires
        c.phase != Phase::Idle,
    ensures
        cost(step_model(c, o).0.phase) < cost(c.phase),
{
}

/// Running a session against the world until it ends.
pub open spec fn run(c: ControllerModel, w: World, e: Effect) -> (ControllerModel, World, Effect)
    decreases cost(c.phase),
{
    if is_final(e) || c.phase == Phase::Idle {
        (c, w, e)
    } else {
        let (w2, o) = respond(w, e);
        proof {
            step_shortens_session(c, o);
        }
        let (c2, e2) = step_model(c, o);
        run(c2, w2, e2)
    }
}

/// A session for route `r` begun at time `now`, run against the world.
pub open spec fn session(c: ControllerModel, w: World, r: Route, now: u64) -> (ControllerModel, World, Effect) {
    let (c1, e1) = begin_model(c, r, now);
    run(c1, w, e1)
}

/// A session asks for at most 15 outside actions before its final answer:
/// starting one puts the controller in a phase of cost at most 15, and every
/// step lowers the cost (`step_shortens_session`).
pub proof fn sessions_are_short(c: ControllerModel, r: Route, now: u64)
    requires
        c.phase == Phase::Idle,
    ensures
        cost(begin_model(c, r, now).0.phase) <= 15,
        cost(begin_startup_model(c).0.phase) <= 15,
{
}

/// Whether an endpoint can be reached: the one in use works, or a default
/// capture endpoint exists to acquire anew.
pub open spec fn reachable(w: World) -> bool {
    w.endpoint || w.communications || w.console
}

/// The world after the endpoint was acquired anew (or kept).
pub open spec fn with_endpoint(w: World) -> World {
    World { endpoint: true, ..w }
}

/// After a tray request for `v`, a session ends with the icon showing `v`
/// (and, for a toggle, the chime of `v` played).
proof fn run_from_tray(c: ControllerModel, w: World, v: bool, then: Then)
    ensures
        ({
            let (c1, e1) = show_in_tray(c, v, then);
            run(c1, w, e1) == (
                ControllerModel { phase: Phase::Idle, tray_added: true, ..c },
                World {
                    icon: Some(v),
                    chime: if then == Then::Feedback {
                        Some(v)
                    } else {
                        w.chime
                    },
                    ..w
                },
                Effect::Reply,
            )
        }),
{
    let (c1, e1) = show_in_tray(c, v, then);
    let w1 = World { icon: Some(v), ..w };
    let c2 = ControllerModel { tray_added: true, ..c1 };
    let (c3, e3) = after_tray(c2, v, then);
    assert(run(c1, w, e1) == run(c3, w1, e3));
    if then == Then::Feedback {
        let w2 = World { chime: Some(v), ..w1 };
        assert(run(c3, w1, e3) == run(with_phase(c3, Phase::Idle), w2, Effect::Reply));
    }
}

/// A first read for `goal` with a reachable endpoint goes on as after
/// reading the true mute state, with a working endpoint.
proof fn run_from_read(c: ControllerModel, w: World, goal: Goal)
    requires
        reachable(w),
    ensures
        ({
            let (c1, e1) = after_read(c, goal, w.muted);
            run(with_phase(c, first_read(goal)), w, Effect::ReadMute) == run(
                c1,
                with_endpoint(w),
                e1,
            )
        }),
{
    let c0 = with_phase(c, first_read(goal));
    let (c1, e1) = after_read(c, goal, w.muted);
    assert(after_read(c0, goal, w.muted) == (c1, e1));
    if w.endpoint {
        assert(with_endpoint(w) == w);
    } else {
        let ca = with_phase(c, Phase::Reading(goal, Access::Acquire(Stage::Enumerator)));
        let cb = with_phase(c, Phase::Reading(goal, Access::Acquire(Stage::Communications)));
        let cd = with_phase(c, Phase::Reading(goal, Access::Acquire(Stage::Activate)));
        let ce = with_phase(c, Phase::Reading(goal, Access::Attempt(true)));
        assert(after_read(ce, goal, w.muted) == (c1, e1));
        assert(run(c0, w, Effect::ReadMute) == run(ca, w, Effect::CreateEnumerator));
        assert(run(ca, w, Effect::CreateEnumerator) == run(
            cb,
            w,
            Effect::DefaultEndpoint(Role::Communications),
        ));
        if w.communications {
            assert(run(cb, w, Effect::DefaultEndpoint(Role::Communications)) == run(
                cd,
                w,
                Effect::ActivateEndpoint,
            ));
        } else {
            let cc = with_phase(c, Phase::Reading(goal, Access::Acquire(Stage::Console)));
            assert(run(cb, w, Effect::DefaultEndpoint(Role::Communications)) == run(
                cc,
                w,
                Effect::DefaultEndpoint(Role::Console),
            ));
            assert(run(cc, w, Effect::DefaultEndpoint(Role::Console)) == run(
                cd,
                w,
                Effect::ActivateEndpoint,
            ));
        }
        assert(run(cd, w, Effect::ActivateEndpoint) == run(
            ce,
            with_endpoint(w),
            Effect::ReadMute,
        ));
    }
}

/// A write of `v` through a working endpoint ends the session with `v`
/// written, shown in the tray and announced by its chime.
proof fn run_from_write(c: ControllerModel, w: World, v: bool)
    requires
        w.endpoint,
    ensures
        run(with_phase(c, Phase::Writing(v, Access::Attempt(false))), w, Effect::WriteMute(v)) == (
            ControllerModel { phase: Phase::Idle, tray_added: true, ..c },
            World { muted: v, icon: Some(v), chime: Some(v), ..w },
            Effect::Reply,
        ),
{
    let c0 = with_phase(c, Phase::Writing(v, Access::Attempt(false)));
    let w1 = World { muted: v, ..w };
    let (c1, e1) = show_in_tray(c0, v, Then::Feedback);
    assert(run(c0, w, Effect::WriteMute(v)) == run(c1, w1, e1));
    run_from_tray(c0, w1, v, Then::Feedback);
}

/// A toggle (tray click or menu item) with a reachable endpoint flips the
/// mute state, shows the new state in the tray, plays its chime and answers
/// 0; the controller ends idle with the tray icon added.
pub proof fn toggle_flips_mute(c: ControllerModel, w: World, now: u64)
    requires
        c.phase == Phase::Idle,
        reachable(w),
    ensures
        ({
            let (c2, w2, e2) = session(c, w, Route::Toggle, now);
            &&& e2 == Effect::Reply
            &&& c2.phase == Phase::Idle
            &&& w2.muted == !w.muted
            &&& w2.icon == Some(!w.muted)
            &&& w2.chime == Some(!w.muted)
            &&& c2.tray_added
            &&& c2.last_trigger == c.last_trigger
        }),
{
    run_from_read(c, w, Goal::Toggle);
    let (c1, e1) = after_read(c, Goal::Toggle, w.muted);
    run_from_write(c, with_endpoint(w), !w.muted);
}

} // verus!

verus! {

/// Toggling twice gives the microphone back its mute state, and the tray
/// shows it again.
pub proof fn toggle_twice_restores(c: ControllerModel, w: World, t1: u64, t2: u64)
    requires
        c.phase == Phase::Idle,
        reachable(w),
    ensures
        ({
            let (c1, w1, e1) = session(c, w, Route::Toggle, t1);
            let (c2, w2, e2) = session(c1, w1, Route::Toggle, t2);
            &&& e2 == Effect::Reply
            &&& w2.muted == w.muted
            &&& w2.icon == Some(w.muted)
            &&& w2.chime == Some(w.muted)
        }),
{
    toggle_flips_mute(c, w, t1);
    let (c1, w1, e1) = session(c, w, Route::Toggle, t1);
    assert(w1.endpoint) by {
        run_from_read(c, w, Goal::Toggle);
        run_from_write(c, with_endpoint(w), !w.muted);
    }
    toggle_flips_mute(c1, w1, t2);
}

/// A hotkey trigger that passes the debounce behaves as a toggle and
/// records its time.
pub proof fn hotkey_trigger_toggles(c: ControllerModel, w: World, now: u64)
    requires
        c.phase == Phase::Idle,
        reachable(w),
        debounce_passes(c.last_trigger, now),
    ensures
        ({
            let (c2, w2, e2) = session(c, w, Route::Trigger, now);
            &&& e2 == Effect::Reply
            &&& c2.phase == Phase::Idle
            &&& w2.muted == !w.muted
            &&& w2.icon == Some(!w.muted)
            &&& w2.chime == Some(!w.muted)
            &&& c2.tray_added
            &&& c2.last_trigger == Some(now)
        }),
{
    let c0 = ControllerModel { last_trigger: Some(now), ..c };
    run_from_read(c0, w, Goal::Toggle);
    run_from_write(c0, with_endpoint(w), !w.muted);
}

/// A hotkey trigger under 250 ms after the last accepted one changes
/// nothing and answers 0.
pub proof fn hotkey_trigger_debounced(c: ControllerModel, w: World, now: u64)
    requires
        !debounce_passes(c.last_trigger, now),
    ensures
        session(c, w, Route::Trigger, now) == (c, w, Effect::Reply),
{
}

/// A toggle with no endpoint to reach changes nothing in the world: the
/// mute state, the tray icon and the chimes stay as they were.
pub proof fn toggle_without_endpoint(c: ControllerModel, w: World, now: u64)
    requires
        c.phase == Phase::Idle,
        !reachable(w),
    ensures
        session(c, w, Route::Toggle, now) == (c, w, Effect::Reply),
{
    let c0 = with_phase(c, first_read(Goal::Toggle));
    let ca = with_phase(c, Phase::Reading(Goal::Toggle, Access::Acquire(Stage::Enumerator)));
    let cb = with_phase(c, Phase::Reading(Goal::Toggle, Access::Acquire(Stage::Communications)));
    let cc = with_phase(c, Phase::Reading(Goal::Toggle, Access::Acquire(Stage::Console)));
    assert(run(c0, w, Effect::ReadMute) == run(ca, w, Effect::CreateEnumerator));
    assert(run(ca, w, Effect::CreateEnumerator) == run(cb, w, Effect::DefaultEndpoint(Role::Communications)));
    assert(run(cb, w, Effect::DefaultEndpoint(Role::Communications)) == run(
        cc,
        w,
        Effect::DefaultEndpoint(Role::Console),
    ));
    assert(run(cc, w, Effect::DefaultEndpoint(Role::Console)) == run(
        with_phase(c, Phase::Idle),
        w,
        Effect::Reply,
    ));
}

/// A right click on the tray icon shows the context menu for the true mute
/// state, and changes nothing else.
pub proof fn menu_shows_mute_state(c: ControllerModel, w: World, now: u64)
    requires
        c.phase == Phase::Idle,
        reachable(w),
    ensures
        session(c, w, Route::Menu, now) == (c, World { menu: Some(w.muted), ..with_endpoint(w) }, Effect::Reply),
{
    run_from_read(c, w, Goal::Menu);
    let c1 = with_phase(c, Phase::Menu);
    assert(run(c1, with_endpoint(w), Effect::ShowMenu(w.muted)) == run(
        with_phase(c, Phase::Idle),
        World { menu: Some(w.muted), ..with_endpoint(w) },
        Effect::Reply,
    ));
}

/// After the taskbar is recreated the tray icon is added again, showing the
/// true mute state, and is known to be added.
pub proof fn taskbar_restart_restores_icon(c: ControllerModel, w: World, now: u64)
    requires
        c.phase == Phase::Idle,
        reachable(w),
    ensures
        session(c, w, Route::ReAddTray, now) == (
            ControllerModel { tray_added: true, ..c },
            World { icon: Some(w.muted), ..with_endpoint(w) },
            Effect::Reply,
        ),
{
    run_from_read(c, w, Goal::ReAdd);
    let c1 = with_phase(c, Phase::Notifying(w.muted, Notify::ReAdd, Then::Finish));
    assert(run(c1, with_endpoint(w), Effect::TrayAdd(w.muted)) == run(
        ControllerModel { tray_added: true, ..c },
        World { icon: Some(w.muted), ..with_endpoint(w) },
        Effect::Reply,
    ));
}

/// Startup with a capture endpoint to acquire shows the true mute state in
/// the tray; with none it stops the program and changes nothing.
pub proof fn startup_shows_mute_state(w: World)
    requires
        !w.endpoint,
    ensures
        ({
            let (c1, e1) = begin_startup_model(initial_model());
            let (c2, w2, e2) = run(c1, w, e1);
            &&& (w.communications || w.console) ==> {
                &&& e2 == Effect::Reply
                &&& c2 == ControllerModel { tray_added: true, ..initial_model() }
                &&& w2 == World { icon: Some(w.muted), ..with_endpoint(w) }
            }
            &&& !(w.communications || w.console) ==> {
                &&& e2 == Effect::Abort
                &&& c2 == initial_model()
                &&& w2 == w
            }
        }),
{
    let c = initial_model();
    let (c1, e1) = begin_startup_model(c);
    let cb = with_phase(c, Phase::Setup(Stage::Communications));
    let cd = with_phase(c, Phase::Setup(Stage::Activate));
    let cc = with_phase(c, Phase::Setup(Stage::Console));
    assert(run(c1, w, e1) == run(cb, w, Effect::DefaultEndpoint(Role::Communications)));
    if w.communications {
        assert(run(cb, w, Effect::DefaultEndpoint(Role::Communications)) == run(
            cd,
            w,
            Effect::ActivateEndpoint,
        ));
    } else {
        assert(run(cb, w, Effect::DefaultEndpoint(Role::Communications)) == run(
            cc,
            w,
            Effect::DefaultEndpoint(Role::Console),
        ));
        if w.console {
            assert(run(cc, w, Effect::DefaultEndpoint(Role::Console)) == run(
                cd,
                w,
                Effect::ActivateEndpoint,
            ));
        } else {
            assert(run(cc, w, Effect::DefaultEndpoint(Role::Console)) == run(
                c,
                w,
                Effect::Abort,
            ));
        }
    }
    if w.communications || w.console {
        let w1 = with_endpoint(w);
        assert(run(cd, w, Effect::ActivateEndpoint) == run(
            with_phase(c, first_read(Goal::Startup)),
            w1,
            Effect::ReadMute,
        ));
        run_from_read(c, w1, Goal::Startup);
        assert(with_endpoint(w1) == w1);
        run_from_tray(c, w1, w.muted, Then::Finish);
    }
}

/// While a session is under way, a message that needs the program's state
/// is answered with 0 and changes nothing.
pub proof fn busy_turns_messages_away(c: ControllerModel, r: Route, now: u64)
    requires
        c.phase != Phase::Idle,
        r == Route::ReAddTray || r == Route::Trigger || r == Route::Menu || r == Route::Toggle,
    ensures
        begin_model(c, r, now) == (c, Effect::Reply),
        needs_state(r),
{
}

/// Messages that need no state are answered the same whether or not a
/// session is under way, and change nothing: quitting posts the quit
/// message, foreign messages go to the default procedure, ignored ones are
/// answered with 0.
pub proof fn stateless_messages_need_no_session(c: ControllerModel, now: u64)
    ensures
        begin_model(c, Route::Quit, now) == (c, Effect::Quit),
        begin_model(c, Route::Default, now) == (c, Effect::DefaultReply),
        begin_model(c, Route::Ignore, now) == (c, Effect::Reply),
{
}

/// A session ends exactly when it gives its final answer: a step from a
/// session under way returns the controller to idle if and only if its
/// effect is final.
pub proof fn session_ends_with_final_effect(c: ControllerModel, o: Outcome)
    requires
        c.phase != Phase::Idle,
    ensures
        is_final(step_model(c, o).1) <==> step_model(c, o).0.phase == Phase::Idle,
{
}

/// Once the tray icon is known to be added it stays so: neither starting a
/// session nor any step forgets it.
pub proof fn tray_stays_added(c: ControllerModel, o: Outcome, r: Route, now: u64)
    requires
        c.tray_added,
    ensures
        step_model(c, o).0.tray_added,
        begin_model(c, r, now).0.tray_added,
        begin_startup_model(c).0.tray_added,
{
}

/// The time of the last accepted hotkey trigger changes only when a trigger
/// is accepted, and then to that trigger's time; no step changes it.
pub proof fn trigger_time_changes_only_on_accept(c: ControllerModel, o: Outcome, r: Route, now: u64)
    ensures
        step_model(c, o).0.last_trigger == c.last_trigger,
        begin_startup_model(c).0.last_trigger == c.last_trigger,
        begin_model(c, r, now).0.last_trigger == c.last_trigger || (r == Route::Trigger
            && c.phase == Phase::Idle && debounce_passes(c.last_trigger, now) && begin_model(
            c,
            r,
            now,
        ).0.last_trigger == Some(now)),
{
}

/// Two accepted hotkey triggers are at least 250 ms apart: a trigger that
/// starts a toggle comes no sooner than 250 ms after the one accepted last.
pub proof fn accepted_triggers_are_spaced(c: ControllerModel, t: u64, now: u64)
    requires
        c.last_trigger == Some(t),
        begin_model(c, Route::Trigger, now).1 == Effect::ReadMute,
    ensures
        t + DEBOUNCE_NS <= now,
{
}

} // verus!

verus! {

/// A hotkey trigger is accepted exactly when none was accepted before or at
/// least 250 ms (250,000,000 ns) have passed since the last accepted one; an
/// accepted trigger on an idle controller starts a toggle by reading the mute
/// state and records its time, a refused one changes nothing.
pub proof fn debounce_accepts_exactly_after_250ms(c: ControllerModel, t: u64, now: u64)
    ensures
        debounce_passes(None, now),
        (t <= now && now - t >= 250_000_000) ==> debounce_passes(Some(t), now),
        (now < t || now - t < 250_000_000) ==> !debounce_passes(Some(t), now),
        (c.phase == Phase::Idle && (c.last_trigger is None || (c.last_trigger == Some(t) && t <= now
            && now - t >= 250_000_000))) ==> begin_model(c, Route::Trigger, now) == (
            ControllerModel {
                phase: Phase::Reading(Goal::Toggle, Access::Attempt(false)),
                tray_added: c.tray_added,
                last_trigger: Some(now),
            },
            Effect::ReadMute,
        ),
        (c.last_trigger == Some(t) && (now < t || now - t < 250_000_000)) ==> begin_model(
            c,
            Route::Trigger,
            now,
        ) == (c, Effect::Reply),
{
}

/// What each window message asks for, in terms of the message and its
/// parameters: on an attached window, the registered `TaskbarCreated`
/// message (when non-zero) re-adds the icon; `WM_HOTKEY` (0x312) and the
/// hook's trigger (0x8002) are hotkey triggers; a tray message (0x8001)
/// toggles on a left-button release (low word 0x202), shows the menu on a
/// right-button release (0x205) and does nothing on any other mouse event;
/// `WM_COMMAND` (0x111) toggles for command 1001, quits for 1002 and does
/// nothing for any other command; `WM_DESTROY` (2) quits; all else goes to the
/// default window procedure, as does everything before the state is attached.
pub proof fn routes_of_messages(msg: u32, wparam: usize, lparam: isize, taskbar_msg: u32, attached: bool)
    ensures
        !attached ==> route_of(msg, wparam, lparam, taskbar_msg, attached) == Route::Default,
        attached && taskbar_msg != 0 && msg == taskbar_msg ==> route_of(msg, wparam, lparam, taskbar_msg, attached)
            == Route::ReAddTray,
        attached && (taskbar_msg == 0 || msg != taskbar_msg) ==> {
            let r = route_of(msg, wparam, lparam, taskbar_msg, attached);
            let low: u32 = (lparam & 0xFFFF) as u32;
            let cmd: usize = wparam & 0xFFFF;
            &&& (msg == 0x0312 || msg == 0x8002) ==> r == Route::Trigger
            &&& msg == 0x8001 ==> {
                &&& low == 0x0202 ==> r == Route::Toggle
                &&& low == 0x0205 ==> r == Route::Menu
                &&& (low != 0x0202 && low != 0x0205) ==> r == Route::Ignore
            }
            &&& msg == 0x0111 ==> {
                &&& cmd == 1001 ==> r == Route::Toggle
                &&& cmd == 1002 ==> r == Route::Quit
                &&& (cmd != 1001 && cmd != 1002) ==> r == Route::Ignore
            }
            &&& msg == 0x0002 ==> r == Route::Quit
            &&& (msg != 0x0312 && msg != 0x8002 && msg != 0x8001 && msg != 0x0111 && msg != 0x0002)
                ==> r == Route::Default
        },
{
}

} // verus!

verus! {

/// A write that fails on a broken endpoint is tried once more after the
/// endpoint is acquired anew (communications first, else console); with one
/// to be found, the new state is written, shown and announced.
pub proof fn failed_write_is_retried_after_reacquiring(c: ControllerModel, w: World, v: bool)
    requires
        !w.endpoint,
        w.communications || w.console,
    ensures
        run(with_phase(c, Phase::Writing(v, Access::Attempt(false))), w, Effect::WriteMute(v)) == (
            ControllerModel { phase: Phase::Idle, tray_added: true, ..c },
            World { muted: v, icon: Some(v), chime: Some(v), ..with_endpoint(w) },
            Effect::Reply,
        ),
{
    let c0 = with_phase(c, Phase::Writing(v, Access::Attempt(false)));
    let ca = with_phase(c, Phase::Writing(v, Access::Acquire(Stage::Enumerator)));
    let cb = with_phase(c, Phase::Writing(v, Access::Acquire(Stage::Communications)));
    let cd = with_phase(c, Phase::Writing(v, Access::Acquire(Stage::Activate)));
    assert(run(c0, w, Effect::WriteMute(v)) == run(ca, w, Effect::CreateEnumerator));
    assert(run(ca, w, Effect::CreateEnumerator) == run(
        cb,
        w,
        Effect::DefaultEndpoint(Role::Communications),
    ));
    if w.communications {
        assert(run(cb, w, Effect::DefaultEndpoint(Role::Communications)) == run(
            cd,
            w,
            Effect::ActivateEndpoint,
        ));
    } else {
        let cc = with_phase(c, Phase::Writing(v, Access::Acquire(Stage::Console)));
        assert(run(cb, w, Effect::DefaultEndpoint(Role::Communications)) == run(
            cc,
            w,
            Effect::DefaultEndpoint(Role::Console),
        ));
        assert(run(cc, w, Effect::DefaultEndpoint(Role::Console)) == run(
            cd,
            w,
            Effect::ActivateEndpoint,
        ));
    }
    let w1 = with_endpoint(w);
    let ce = with_phase(c, Phase::Writing(v, Access::Attempt(true)));
    assert(run(cd, w, Effect::ActivateEndpoint) == run(ce, w1, Effect::WriteMute(v)));
    let w2 = World { muted: v, ..w1 };
    let (c3, e3) = show_in_tray(ce, v, Then::Feedback);
    assert(run(ce, w1, Effect::WriteMute(v)) == run(c3, w2, e3));
    run_from_tray(ce, w2, v, Then::Feedback);
}

/// A refused modify of the tray icon is followed by an add of the same
/// state; either way the session then goes on as it would have (the chime
/// after a toggle, the end otherwise).
pub proof fn refused_modify_falls_back_to_add(c: ControllerModel, v: bool, then: Then)
    requires
        c.phase == Phase::Notifying(v, Notify::Modify, then),
    ensures
        step_model(c, Outcome::Failed).1 == Effect::TrayAdd(v),
        step_model(step_model(c, Outcome::Failed).0, Outcome::Failed).1 == step_model(
            c,
            Outcome::Done,
        ).1,
        step_model(c, Outcome::Done).1 == (if then == Then::Feedback {
            Effect::PlayFeedback(v)
        } else {
            Effect::Reply
        }),
{
}

/// A first add of the tray icon counts as added only if the shell accepts
/// it; a refused one leaves it not added, so the next showing adds again.
pub proof fn icon_counts_as_added_only_when_accepted(c: ControllerModel, v: bool, then: Then)
    requires
        c.phase == Phase::Notifying(v, Notify::Add, then),
        !c.tray_added,
    ensures
        step_model(c, Outcome::Done).0.tray_added,
        !step_model(c, Outcome::Failed).0.tray_added,
        step_model(c, Outcome::Failed).1 == step_model(c, Outcome::Done).1,
{
}

/// Where the mute state cannot be read, the menu and the re-added icon show
/// the microphone as live.
pub proof fn unreadable_state_shows_live(c: ControllerModel, w: World, now: u64)
    requires
        c.phase == Phase::Idle,
        !reachable(w),
    ensures
        session(c, w, Route::Menu, now).1.menu == Some(false),
        session(c, w, Route::ReAddTray, now).1.icon == Some(false),
{
    lemma_failed_read(c, w, Goal::Menu);
    lemma_failed_read(c, w, Goal::ReAdd);
    assert(run(with_phase(c, Phase::Menu), w, Effect::ShowMenu(false)) == run(
        with_phase(c, Phase::Idle),
        World { menu: Some(false), ..w },
        Effect::Reply,
    ));
    let cr = with_phase(c, Phase::Notifying(false, Notify::ReAdd, Then::Finish));
    assert(run(cr, w, Effect::TrayAdd(false)) == run(
        ControllerModel { phase: Phase::Idle, tray_added: true, ..c },
        World { icon: Some(false), ..w },
        Effect::Reply,
    ));
}

proof fn lemma_failed_read(c: ControllerModel, w: World, goal: Goal)
    requires
        !reachable(w),
    ensures
        ({
            let (c1, e1) = after_failed_read(c, goal);
            run(with_phase(c, first_read(goal)), w, Effect::ReadMute) == run(c1, w, e1)
        }),
{
    let c0 = with_phase(c, first_read(goal));
    let ca = with_phase(c, Phase::Reading(goal, Access::Acquire(Stage::Enumerator)));
    let cb = with_phase(c, Phase::Reading(goal, Access::Acquire(Stage::Communications)));
    let cc = with_phase(c, Phase::Reading(goal, Access::Acquire(Stage::Console)));
    assert(run(c0, w, Effect::ReadMute) == run(ca, w, Effect::CreateEnumerator));
    assert(run(ca, w, Effect::CreateEnumerator) == run(
        cb,
        w,
        Effect::DefaultEndpoint(Role::Communications),
    ));
    assert(run(cb, w, Effect::DefaultEndpoint(Role::Communications)) == run(
        cc,
        w,
        Effect::DefaultEndpoint(Role::Console),
    ));
    let (c1, e1) = after_failed_read(cc, goal);
    assert(after_failed_read(cc, goal) == after_failed_read(c, goal));
}

} // verus!
