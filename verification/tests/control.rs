use quickmute::control::{
    debounce_check, route, Controller, Effect, Outcome, Role, Route, DEBOUNCE_NS,
};

/// A simulated outside world for driving sessions.
#[derive(Clone, Debug, PartialEq)]
struct Sim {
    muted: bool,
    endpoint: bool,
    communications: bool,
    console: bool,
    shell_ok: bool,
    modify_ok: bool,
    icon: Option<bool>,
    chime: Option<bool>,
    menu: Option<bool>,
    log: Vec<Effect>,
}

impl Sim {
    fn new(muted: bool) -> Sim {
        Sim {
            muted,
            endpoint: true,
            communications: true,
            console: true,
            shell_ok: true,
            modify_ok: true,
            icon: None,
            chime: None,
            menu: None,
            log: Vec::new(),
        }
    }

    fn respond(&mut self, e: Effect) -> Outcome {
        self.log.push(e);
        match e {
            Effect::CreateEnumerator => Outcome::Done,
            Effect::DefaultEndpoint(Role::Communications) => {
                if self.communications { Outcome::Done } else { Outcome::Failed }
            }
            Effect::DefaultEndpoint(Role::Console) => {
                if self.console { Outcome::Done } else { Outcome::Failed }
            }
            Effect::ActivateEndpoint => {
                self.endpoint = true;
                Outcome::Done
            }
            Effect::ReadMute => {
                if self.endpoint { Outcome::Muted(self.muted) } else { Outcome::Failed }
            }
            Effect::WriteMute(b) => {
                if self.endpoint {
                    self.muted = b;
                    Outcome::Done
                } else {
                    Outcome::Failed
                }
            }
            Effect::TrayAdd(b) => {
                if self.shell_ok {
                    self.icon = Some(b);
                    Outcome::Done
                } else {
                    Outcome::Failed
                }
            }
            Effect::TrayModify(b) => {
                if self.shell_ok && self.modify_ok {
                    self.icon = Some(b);
                    Outcome::Done
                } else {
                    Outcome::Failed
                }
            }
            Effect::ShowMenu(b) => {
                self.menu = Some(b);
                Outcome::Done
            }
            Effect::PlayFeedback(b) => {
                self.chime = Some(b);
                Outcome::Done
            }
            _ => Outcome::Done,
        }
    }
}

fn is_final(e: Effect) -> bool {
    matches!(e, Effect::Reply | Effect::DefaultReply | Effect::Quit | Effect::Abort)
}

fn drive(c: &mut Controller, sim: &mut Sim, first: Effect) -> Effect {
    let mut e = first;
    let mut n = 0;
    while !is_final(e) {
        let o = sim.respond(e);
        e = c.step(o);
        n += 1;
        assert!(n <= 15, "session asked for more than 15 actions");
    }
    e
}

fn started(sim: &mut Sim) -> Controller {
    let mut c = Controller::new();
    sim.endpoint = false;
    let e = c.begin_startup();
    assert_eq!(drive(&mut c, sim, e), Effect::Reply);
    sim.log.clear();
    c
}

#[test]
fn startup_acquires_endpoint_and_shows_state() {
    let mut sim = Sim::new(true);
    sim.endpoint = false;
    let mut c = Controller::new();
    let e = c.begin_startup();
    assert_eq!(drive(&mut c, &mut sim, e), Effect::Reply);
    assert_eq!(
        sim.log,
        vec![
            Effect::CreateEnumerator,
            Effect::DefaultEndpoint(Role::Communications),
            Effect::ActivateEndpoint,
            Effect::ReadMute,
            Effect::TrayAdd(true),
        ]
    );
    assert_eq!(sim.icon, Some(true));
    assert!(c.tray_added());
    assert!(!c.is_busy());
}

#[test]
fn startup_falls_back_to_console_endpoint() {
    let mut sim = Sim::new(false);
    sim.endpoint = false;
    sim.communications = false;
    let mut c = Controller::new();
    let e = c.begin_startup();
    assert_eq!(drive(&mut c, &mut sim, e), Effect::Reply);
    assert_eq!(sim.log[1], Effect::DefaultEndpoint(Role::Communications));
    assert_eq!(sim.log[2], Effect::DefaultEndpoint(Role::Console));
    assert_eq!(sim.icon, Some(false));
}

#[test]
fn startup_without_endpoint_aborts() {
    let mut sim = Sim::new(false);
    sim.endpoint = false;
    sim.communications = false;
    sim.console = false;
    let mut c = Controller::new();
    let e = c.begin_startup();
    assert_eq!(drive(&mut c, &mut sim, e), Effect::Abort);
    assert_eq!(sim.icon, None);
    assert!(!c.is_busy());
}

#[test]
fn startup_with_unreadable_state_shows_live() {
    let mut sim = Sim::new(true);
    sim.endpoint = false;
    let mut c = Controller::new();
    let mut e = c.begin_startup();
    // The endpoint is acquired, but every read fails.
    let mut reads = 0;
    while !is_final(e) {
        let o = match e {
            Effect::ReadMute => {
                reads += 1;
                Outcome::Failed
            }
            other => sim.respond(other),
        };
        e = c.step(o);
    }
    assert_eq!(reads, 2);
    assert_eq!(sim.icon, Some(false));
}

#[test]
fn toggle_flips_and_announces() {
    let mut sim = Sim::new(false);
    let mut c = started(&mut sim);
    let e = c.begin(Route::Toggle, 0);
    assert_eq!(drive(&mut c, &mut sim, e), Effect::Reply);
    assert!(sim.muted);
    assert_eq!(sim.icon, Some(true));
    assert_eq!(sim.chime, Some(true));
    assert_eq!(
        sim.log,
        vec![
            Effect::ReadMute,
            Effect::WriteMute(true),
            Effect::TrayModify(true),
            Effect::PlayFeedback(true),
        ]
    );
    let e = c.begin(Route::Toggle, 0);
    drive(&mut c, &mut sim, e);
    assert!(!sim.muted);
    assert_eq!(sim.icon, Some(false));
    assert_eq!(sim.chime, Some(false));
}

#[test]
fn toggle_reacquires_a_lost_endpoint() {
    let mut sim = Sim::new(true);
    let mut c = started(&mut sim);
    sim.endpoint = false;
    let e = c.begin(Route::Toggle, 0);
    assert_eq!(drive(&mut c, &mut sim, e), Effect::Reply);
    assert!(!sim.muted);
    assert_eq!(
        sim.log,
        vec![
            Effect::ReadMute,
            Effect::CreateEnumerator,
            Effect::DefaultEndpoint(Role::Communications),
            Effect::ActivateEndpoint,
            Effect::ReadMute,
            Effect::WriteMute(false),
            Effect::TrayModify(false),
            Effect::PlayFeedback(false),
        ]
    );
}

#[test]
fn toggle_gives_up_when_endpoint_is_gone() {
    let mut sim = Sim::new(true);
    let mut c = started(&mut sim);
    sim.endpoint = false;
    sim.communications = false;
    sim.console = false;
    let before = sim.clone();
    let e = c.begin(Route::Toggle, 0);
    assert_eq!(drive(&mut c, &mut sim, e), Effect::Reply);
    assert!(sim.muted);
    assert_eq!(sim.icon, before.icon);
    assert_eq!(sim.chime, None);
    assert!(!c.is_busy());
}

#[test]
fn failed_write_is_retried_once() {
    let mut sim = Sim::new(false);
    let mut c = started(&mut sim);
    let mut e = c.begin(Route::Toggle, 0);
    let mut writes = 0;
    while !is_final(e) {
        let o = match e {
            Effect::WriteMute(_) => {
                writes += 1;
                Outcome::Failed
            }
            other => sim.respond(other),
        };
        e = c.step(o);
    }
    assert_eq!(writes, 2);
    assert!(sim.log.contains(&Effect::ActivateEndpoint));
    assert_eq!(sim.chime, None);
    assert!(!sim.muted);
}

#[test]
fn failed_modify_falls_back_to_add() {
    let mut sim = Sim::new(false);
    let mut c = started(&mut sim);
    sim.modify_ok = false;
    let e = c.begin(Route::Toggle, 0);
    drive(&mut c, &mut sim, e);
    assert_eq!(
        sim.log,
        vec![
            Effect::ReadMute,
            Effect::WriteMute(true),
            Effect::TrayModify(true),
            Effect::TrayAdd(true),
            Effect::PlayFeedback(true),
        ]
    );
    assert!(c.tray_added());
}

#[test]
fn failed_first_add_is_retried_as_add() {
    let mut sim = Sim::new(false);
    sim.shell_ok = false;
    let mut c = started(&mut sim);
    assert!(!c.tray_added());
    sim.shell_ok = true;
    let e = c.begin(Route::Toggle, 0);
    drive(&mut c, &mut sim, e);
    assert_eq!(sim.log[2], Effect::TrayAdd(true));
    assert!(c.tray_added());
}

#[test]
fn hotkey_triggers_are_debounced() {
    let mut sim = Sim::new(false);
    let mut c = started(&mut sim);
    let t0: u64 = 5_000_000_000;
    let e = c.begin(Route::Trigger, t0);
    drive(&mut c, &mut sim, e);
    assert!(sim.muted);
    assert_eq!(c.last_trigger(), Some(t0));
    // 249.999999 ms later: ignored, time unchanged.
    assert_eq!(c.begin(Route::Trigger, t0 + DEBOUNCE_NS - 1), Effect::Reply);
    assert!(!c.is_busy());
    assert_eq!(c.last_trigger(), Some(t0));
    assert!(sim.muted);
    // 250 ms later: accepted.
    let e = c.begin(Route::Trigger, t0 + DEBOUNCE_NS);
    drive(&mut c, &mut sim, e);
    assert!(!sim.muted);
    assert_eq!(c.last_trigger(), Some(t0 + 250_000_000));
}

#[test]
fn first_trigger_is_always_accepted() {
    let mut sim = Sim::new(false);
    let mut c = started(&mut sim);
    assert_eq!(c.begin(Route::Trigger, 0), Effect::ReadMute);
}

#[test]
fn tray_clicks_are_not_debounced() {
    let mut sim = Sim::new(false);
    let mut c = started(&mut sim);
    let e = c.begin(Route::Trigger, 1_000);
    drive(&mut c, &mut sim, e);
    let e = c.begin(Route::Toggle, 1_001);
    drive(&mut c, &mut sim, e);
    assert!(!sim.muted);
    assert_eq!(c.last_trigger(), Some(1_000));
}

#[test]
fn debounce_rule() {
    assert!(debounce_check(None, 0));
    assert!(!debounce_check(Some(100), 100 + 249_999_999));
    assert!(debounce_check(Some(100), 100 + 250_000_000));
    assert!(!debounce_check(Some(500), 100));
}

#[test]
fn menu_shows_current_state() {
    let mut sim = Sim::new(true);
    let mut c = started(&mut sim);
    let e = c.begin(Route::Menu, 0);
    assert_eq!(drive(&mut c, &mut sim, e), Effect::Reply);
    assert_eq!(sim.menu, Some(true));
    assert!(sim.muted);
}

#[test]
fn taskbar_restart_adds_icon_again() {
    let mut sim = Sim::new(true);
    let mut c = started(&mut sim);
    sim.icon = None;
    let e = c.begin(Route::ReAddTray, 0);
    drive(&mut c, &mut sim, e);
    assert_eq!(sim.log, vec![Effect::ReadMute, Effect::TrayAdd(true)]);
    assert_eq!(sim.icon, Some(true));
    assert!(c.tray_added());
}

#[test]
fn busy_controller_turns_stateful_messages_away() {
    let mut sim = Sim::new(false);
    let mut c = started(&mut sim);
    assert_eq!(c.begin(Route::Menu, 0), Effect::ReadMute);
    assert!(c.is_busy());
    assert_eq!(c.begin(Route::Trigger, 0), Effect::Reply);
    assert_eq!(c.last_trigger(), None);
    assert_eq!(c.begin(Route::Toggle, 0), Effect::Reply);
    assert_eq!(c.begin(Route::Quit, 0), Effect::Quit);
    assert_eq!(c.begin(Route::Default, 0), Effect::DefaultReply);
    assert_eq!(c.begin(Route::Ignore, 0), Effect::Reply);
    // The session under way goes on undisturbed.
    assert_eq!(c.step(Outcome::Muted(false)), Effect::ShowMenu(false));
    assert_eq!(c.step(Outcome::Done), Effect::Reply);
    assert!(!c.is_busy());
}

#[test]
fn stateless_routes() {
    let mut c = Controller::new();
    assert_eq!(c.begin(Route::Quit, 0), Effect::Quit);
    assert_eq!(c.begin(Route::Default, 0), Effect::DefaultReply);
    assert_eq!(c.begin(Route::Ignore, 0), Effect::Reply);
    assert!(!c.is_busy());
}

#[test]
fn routes_of_messages() {
    let tb = 0xC0F0;
    assert_eq!(route(0x0312, 1, 0, tb, true), Route::Trigger);
    assert_eq!(route(0x8002, 0, 0, tb, true), Route::Trigger);
    assert_eq!(route(0x8001, 1, 0x0205, tb, true), Route::Menu);
    assert_eq!(route(0x8001, 1, 0x0202, tb, true), Route::Toggle);
    assert_eq!(route(0x8001, 1, 0x10202, tb, true), Route::Toggle);
    assert_eq!(route(0x8001, 1, 0x0200, tb, true), Route::Ignore);
    assert_eq!(route(0x0111, 1001, 0, tb, true), Route::Toggle);
    assert_eq!(route(0x0111, 0x1_0000 + 1002, 0, tb, true), Route::Quit);
    assert_eq!(route(0x0111, 7, 0, tb, true), Route::Ignore);
    assert_eq!(route(0x0002, 0, 0, tb, true), Route::Quit);
    assert_eq!(route(0x0010, 0, 0, tb, true), Route::Default);
    assert_eq!(route(tb, 0, 0, tb, true), Route::ReAddTray);
    assert_eq!(route(0x0312, 1, 0, tb, false), Route::Default);
}

#[test]
fn unregistered_taskbar_message_is_not_matched() {
    assert_eq!(route(0, 0, 0, 0, true), Route::Default);
}

#[test]
fn negative_lparam_low_word() {
    // A negative lparam whose low word is WM_RBUTTONUP.
    let lparam: isize = -0x10000 + 0x0205;
    assert_eq!(route(0x8001, 0, lparam, 1, true), Route::Menu);
}

#[test]
fn toggling_twice_restores_state() {
    let mut sim = Sim::new(true);
    let mut c = started(&mut sim);
    for _ in 0..2 {
        let e = c.begin(Route::Toggle, 0);
        drive(&mut c, &mut sim, e);
    }
    assert!(sim.muted);
    assert_eq!(sim.icon, Some(true));
    assert_eq!(sim.chime, Some(true));
}

#[test]
fn longest_session_stays_within_bound() {
    // Both attempts need a fresh endpoint, found only as the console one.
    let mut sim = Sim::new(false);
    let mut c = started(&mut sim);
    sim.communications = false;
    let mut e = c.begin(Route::Toggle, 0);
    let mut actions = 0;
    let mut first_write = true;
    while !is_final(e) {
        actions += 1;
        let o = match e {
            Effect::ReadMute if actions == 1 => Outcome::Failed,
            Effect::WriteMute(_) if first_write => {
                first_write = false;
                Outcome::Failed
            }
            other => sim.respond(other),
        };
        e = c.step(o);
    }
    assert!(actions <= 15);
    assert!(sim.muted);
}
