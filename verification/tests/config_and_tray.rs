use mouse_switcher::config::{Config, HotkeyConfig, Profile};
use mouse_switcher::mouse::{mouse_params_with_precision, settings_from_system, MouseSettings};
use mouse_switcher::tray::{
    is_open_config, is_quit, is_toggle, menu_id_to_profile, tooltip_text, tray_menu_entries,
    tray_view, CurrentProfile, MenuEntry,
};

#[test]
fn default_values_match_readme() {
    let c = Config::default_values();
    assert_eq!(c.normal, Profile { speed: 10, enhance_precision: true });
    assert_eq!(c.gaming, Profile { speed: 4, enhance_precision: false });
    assert_eq!(
        c.hotkey,
        HotkeyConfig {
            toggle: "Ctrl+Alt+KeyM".to_string(),
            speed_up: "Ctrl+Alt+ArrowUp".to_string(),
            speed_down: "Ctrl+Alt+ArrowDown".to_string(),
        }
    );
}

#[test]
fn labels() {
    assert_eq!(CurrentProfile::Normal.label(), "Normal");
    assert_eq!(CurrentProfile::Gaming.label(), "Gaming");
}

#[test]
fn toggle_flips_and_twice_restores() {
    let mut p = CurrentProfile::Normal;
    p.toggle();
    assert_eq!(p, CurrentProfile::Gaming);
    p.toggle();
    assert_eq!(p, CurrentProfile::Normal);
}

#[test]
fn menu_ids() {
    assert_eq!(menu_id_to_profile("normal"), Some(CurrentProfile::Normal));
    assert_eq!(menu_id_to_profile("gaming"), Some(CurrentProfile::Gaming));
    assert_eq!(menu_id_to_profile("Normal"), None);
    assert_eq!(menu_id_to_profile("toggle"), None);
    assert_eq!(menu_id_to_profile(""), None);
    assert!(is_toggle("toggle"));
    assert!(!is_toggle("toggl"));
    assert!(!is_toggle("toggles"));
    assert!(is_open_config("open_config"));
    assert!(!is_open_config("quit"));
    assert!(is_quit("quit"));
    assert!(!is_quit("normal"));
}

#[test]
fn tray_menu_layout() {
    let m = tray_menu_entries();
    assert_eq!(m.len(), 7);
    match &m[0] {
        MenuEntry::Check { id, text, checked } => {
            assert_eq!(id, "normal");
            assert_eq!(text, "Normal");
            assert!(*checked);
        }
        _ => panic!("first entry"),
    }
    match &m[1] {
        MenuEntry::Check { id, text, checked } => {
            assert_eq!(id, "gaming");
            assert_eq!(text, "Gaming");
            assert!(!*checked);
        }
        _ => panic!("second entry"),
    }
    assert!(matches!(m[2], MenuEntry::Separator));
    match &m[3] {
        MenuEntry::Item { id, text } => {
            assert_eq!(id, "toggle");
            assert_eq!(text, "Toggle Profile");
        }
        _ => panic!("fourth entry"),
    }
    assert!(matches!(m[4], MenuEntry::Separator));
    match &m[5] {
        MenuEntry::Item { id, text } => {
            assert_eq!(id, "open_config");
            assert_eq!(text, "Open Settings");
        }
        _ => panic!("sixth entry"),
    }
    match &m[6] {
        MenuEntry::Item { id, text } => {
            assert_eq!(id, "quit");
            assert_eq!(text, "Quit");
        }
        _ => panic!("seventh entry"),
    }
}

#[test]
fn tooltips_and_check_marks() {
    assert_eq!(tooltip_text(CurrentProfile::Normal), "Mouse Switcher - Normal");
    assert_eq!(tooltip_text(CurrentProfile::Gaming), "Mouse Switcher - Gaming");
    let v = tray_view(CurrentProfile::Gaming);
    assert_eq!(v.tooltip, "Mouse Switcher - Gaming");
    assert!(!v.normal_checked);
    assert!(v.gaming_checked);
    let v = tray_view(CurrentProfile::Normal);
    assert!(v.normal_checked);
    assert!(!v.gaming_checked);
}

#[test]
fn profile_into_mouse_settings() {
    let s: MouseSettings = Profile { speed: 7, enhance_precision: false }.into();
    assert_eq!(s, MouseSettings { speed: 7, enhance_precision: false });
    let s = MouseSettings::from(Profile { speed: 20, enhance_precision: true });
    assert_eq!(s, MouseSettings { speed: 20, enhance_precision: true });
}

#[test]
fn mouse_params_round_trip() {
    let params = [6u32, 10, 1];
    let off = mouse_params_with_precision(params, false);
    assert_eq!(off, [6, 10, 0]);
    assert!(!settings_from_system(5, off).enhance_precision);
    let on = mouse_params_with_precision([6, 10, 0], true);
    assert_eq!(on, [6, 10, 1]);
    let s = settings_from_system(12, on);
    assert_eq!(s, MouseSettings { speed: 12, enhance_precision: true });
    assert!(settings_from_system(3, [0, 0, 2]).enhance_precision);
}
