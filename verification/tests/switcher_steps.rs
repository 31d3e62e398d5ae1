use mouse_switcher::config::{Config, Profile};
use mouse_switcher::mouse::MouseSettings;
use mouse_switcher::switcher::{handle_menu_event, step_speed, Command, Outcome, Switcher};
use mouse_switcher::tray::CurrentProfile;

fn fresh() -> Switcher {
    Switcher::new(Config::default_values(), 11, 22, 33)
}

#[test]
fn starts_in_normal() {
    let s = fresh();
    assert_eq!(s.profile, CurrentProfile::Normal);
    assert_eq!(*s.active_profile(), Profile { speed: 10, enhance_precision: true });
}

#[test]
fn hotkeys_map_to_commands() {
    let s = fresh();
    assert_eq!(s.handle_hotkey(11), Some(Command::Toggle));
    assert_eq!(s.handle_hotkey(22), Some(Command::ChangeSpeed(1)));
    assert_eq!(s.handle_hotkey(33), Some(Command::ChangeSpeed(-1)));
    assert_eq!(s.handle_hotkey(44), None);
    let same = Switcher::new(Config::default_values(), 5, 5, 5);
    assert_eq!(same.handle_hotkey(5), Some(Command::Toggle));
}

#[test]
fn menu_events_map_to_commands() {
    assert_eq!(handle_menu_event("toggle"), Some(Command::Toggle));
    assert_eq!(handle_menu_event("normal"), Some(Command::SwitchTo(CurrentProfile::Normal)));
    assert_eq!(handle_menu_event("gaming"), Some(Command::SwitchTo(CurrentProfile::Gaming)));
    assert_eq!(handle_menu_event("open_config"), Some(Command::OpenConfig));
    assert_eq!(handle_menu_event("quit"), Some(Command::Quit));
    assert_eq!(handle_menu_event("other"), None);
}

#[test]
fn switching_profiles() {
    let mut s = fresh();
    assert_eq!(s.switch_to_profile(CurrentProfile::Normal), Outcome::Unchanged);
    assert_eq!(
        s.switch_to_profile(CurrentProfile::Gaming),
        Outcome::Switched(MouseSettings { speed: 4, enhance_precision: false })
    );
    assert_eq!(s.profile, CurrentProfile::Gaming);
    assert_eq!(s.switch_to_profile(CurrentProfile::Gaming), Outcome::Unchanged);
    assert_eq!(s.config, Config::default_values());
}

#[test]
fn toggle_twice_restores() {
    let mut s = fresh();
    assert_eq!(
        s.do_toggle(),
        Outcome::Switched(MouseSettings { speed: 4, enhance_precision: false })
    );
    assert_eq!(s.profile, CurrentProfile::Gaming);
    assert_eq!(
        s.do_toggle(),
        Outcome::Switched(MouseSettings { speed: 10, enhance_precision: true })
    );
    assert_eq!(s.profile, CurrentProfile::Normal);
}

#[test]
fn speed_steps_clamp() {
    let mut s = fresh();
    assert_eq!(
        s.do_change_speed(1),
        Outcome::SpeedChanged(MouseSettings { speed: 11, enhance_precision: true })
    );
    assert_eq!(s.config.normal.speed, 11);
    assert_eq!(s.config.gaming.speed, 4);
    assert_eq!(
        s.do_change_speed(-1),
        Outcome::SpeedChanged(MouseSettings { speed: 10, enhance_precision: true })
    );
    assert_eq!(s.config, Config::default_values());
    s.config.normal.speed = 20;
    assert_eq!(s.do_change_speed(1), Outcome::Unchanged);
    s.config.normal.speed = 1;
    assert_eq!(s.do_change_speed(-1), Outcome::Unchanged);
    assert_eq!(s.config.normal.speed, 1);
}

#[test]
fn speed_outside_range_is_pulled_in() {
    let mut s = fresh();
    s.config.normal.speed = 35;
    assert_eq!(
        s.do_change_speed(-1),
        Outcome::SpeedChanged(MouseSettings { speed: 20, enhance_precision: true })
    );
    s.config.normal.speed = 0;
    assert_eq!(
        s.do_change_speed(-1),
        Outcome::SpeedChanged(MouseSettings { speed: 1, enhance_precision: true })
    );
}

#[test]
fn step_speed_values() {
    assert_eq!(step_speed(10, 1), 11);
    assert_eq!(step_speed(10, -1), 9);
    assert_eq!(step_speed(20, 1), 20);
    assert_eq!(step_speed(1, -1), 1);
    assert_eq!(step_speed(100, 0), 20);
    assert_eq!(step_speed(0, 0), 1);
    // A speed past i32::MAX reads as a negative number, as `as i32` does.
    assert_eq!(step_speed(3_000_000_000, 1), 1);
    assert_eq!(step_speed(4_294_967_295, 1), 1);
    assert_eq!(step_speed(5, 10), 15);
}

#[test]
fn acceleration_toggle_twice_restores() {
    let mut s = fresh();
    s.do_toggle();
    assert_eq!(
        s.do_toggle_accel(),
        Outcome::AccelerationToggled(MouseSettings { speed: 4, enhance_precision: true })
    );
    assert_eq!(s.config.gaming, Profile { speed: 4, enhance_precision: true });
    assert_eq!(s.config.normal, Profile { speed: 10, enhance_precision: true });
    assert_eq!(
        s.do_toggle_accel(),
        Outcome::AccelerationToggled(MouseSettings { speed: 4, enhance_precision: false })
    );
    assert_eq!(s.config, Config::default_values());
}

#[test]
fn step_dispatches() {
    let mut s = fresh();
    assert_eq!(s.step(Command::OpenConfig), Outcome::OpenConfig);
    assert_eq!(s.step(Command::Quit), Outcome::Quit);
    assert_eq!(
        s.step(Command::SwitchTo(CurrentProfile::Gaming)),
        Outcome::Switched(MouseSettings { speed: 4, enhance_precision: false })
    );
    assert_eq!(
        s.step(Command::ChangeSpeed(-1)),
        Outcome::SpeedChanged(MouseSettings { speed: 3, enhance_precision: false })
    );
    assert_eq!(
        s.step(Command::ToggleAcceleration),
        Outcome::AccelerationToggled(MouseSettings { speed: 3, enhance_precision: true })
    );
    assert_eq!(
        s.step(Command::Toggle),
        Outcome::Switched(MouseSettings { speed: 10, enhance_precision: true })
    );
    assert_eq!(s.config.gaming, Profile { speed: 3, enhance_precision: true });
}

#[test]
fn steps_that_would_overflow_are_refused() {
    let mut s = fresh();
    assert!(s.can_step(Command::ChangeSpeed(1)));
    assert!(s.can_step(Command::Toggle));
    s.config.normal.speed = 2_147_483_647;
    assert!(!s.can_step(Command::ChangeSpeed(1)));
    assert!(s.can_step(Command::ChangeSpeed(-1)));
    s.config.normal.speed = 2_147_483_648;
    assert!(!s.can_step(Command::ChangeSpeed(-1)));
    assert!(s.can_step(Command::ChangeSpeed(1)));
    assert_eq!(
        s.step(Command::ChangeSpeed(1)),
        Outcome::SpeedChanged(MouseSettings { speed: 1, enhance_precision: true })
    );
}
