use std::str::FromStr;

use global_hotkey::hotkey::HotKey;
use mouse_switcher::hotkey::{choose_hotkey, hotkey_fallback_text, parse_hotkey};
use mouse_switcher::text::{contains_text, replace_text, text_eq};

#[test]
fn text_helpers() {
    assert!(text_eq("abc", "abc"));
    assert!(!text_eq("abc", "abd"));
    assert!(!text_eq("abc", "ab"));
    assert!(text_eq("", ""));
    assert!(contains_text("ctrl+alt+arrowup", "up"));
    assert!(contains_text("up", "up"));
    assert!(!contains_text("u", "up"));
    assert!(contains_text("anything", ""));
    assert!(!contains_text("ctrl+alt+keym", "down"));
    assert_eq!(replace_text("up+up", "up", "Plus"), "Plus+Plus");
    assert_eq!(replace_text("aaa", "aa", "b"), "ba");
    assert_eq!(replace_text("xyz", "q", "r"), "xyz");
    assert_eq!(replace_text("", "q", "r"), "");
    assert_eq!(replace_text("ctrl+alt+arrowup", "arrowup", "Plus"), "ctrl+alt+Plus");
}

#[test]
fn fallback_spellings() {
    assert_eq!(hotkey_fallback_text("Ctrl+Alt+ArrowUp").as_deref(), Some("ctrl+alt+Plus"));
    assert_eq!(hotkey_fallback_text("Ctrl+Alt+ArrowDown").as_deref(), Some("ctrl+alt+Minus"));
    assert_eq!(hotkey_fallback_text("Ctrl+Alt+PageDown").as_deref(), Some("ctrl+alt+pageMinus"));
    assert_eq!(hotkey_fallback_text("Ctrl+Alt+Numup").as_deref(), Some("ctrl+alt+numPlus"));
    assert_eq!(hotkey_fallback_text("Ctrl+Alt+KeyM"), None);
}

#[test]
fn hotkeys_parse_as_written() {
    let h = parse_hotkey("Ctrl+Alt+KeyM").expect("parses");
    assert_eq!(h.id(), HotKey::from_str("Ctrl+Alt+KeyM").unwrap().id());
    assert!(parse_hotkey("Ctrl+Alt+ArrowUp").is_some());
}

#[test]
fn default_toggle_is_ctrl_alt_m() {
    let h = parse_hotkey("Ctrl+Alt+KeyM").expect("parses");
    assert_eq!(h.id(), HotKey::from_str("Ctrl+Alt+M").unwrap().id());
}

#[test]
fn hotkeys_parse_by_second_spelling() {
    assert!(HotKey::from_str("Ctrl+Alt+Numup").is_err());
    let h = parse_hotkey("Ctrl+Alt+Numup").expect("second spelling parses");
    assert_eq!(h.id(), HotKey::from_str("ctrl+alt+numPlus").unwrap().id());
}

#[test]
fn hotkeys_that_do_not_parse() {
    assert!(parse_hotkey("Ctrl+Alt+Nothing").is_none());
    assert!(parse_hotkey("Ctrl+Alt+SpeedUp").is_none());
    assert!(parse_hotkey("").is_none());
}

#[test]
fn setting_as_written_wins_over_second_spelling() {
    // "ctrl+alt+Minus" parses too; the setting as written must win.
    assert!(HotKey::from_str("ctrl+alt+Minus").is_ok());
    let h = parse_hotkey("Ctrl+Alt+ArrowDown").expect("parses");
    assert_eq!(h.id(), HotKey::from_str("Ctrl+Alt+ArrowDown").unwrap().id());
    assert_ne!(h.id(), HotKey::from_str("ctrl+alt+Minus").unwrap().id());
}

#[test]
fn readme_sample_hotkeys() {
    for text in ["Ctrl+Alt+M", "Ctrl+Shift+1", "Alt+G"] {
        let h = parse_hotkey(text).expect("parses");
        assert_eq!(h.id(), HotKey::from_str(text).unwrap().id());
    }
}

#[test]
fn choose_hotkey_prefers_direct() {
    let a = HotKey::from_str("Ctrl+Alt+M").unwrap();
    let b = HotKey::from_str("Alt+G").unwrap();
    assert_eq!(choose_hotkey(Some(a), Some(b)).map(|h| h.id()), Some(a.id()));
    assert_eq!(choose_hotkey(None, Some(b)).map(|h| h.id()), Some(b.id()));
    assert!(choose_hotkey(None, None).is_none());
    assert_eq!(choose_hotkey(Some(a), None).map(|h| h.id()), Some(a.id()));
}
