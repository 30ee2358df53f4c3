use skrift::config::Config;
use skrift::shortcut::parse_shortcut;
use skrift::shortcut::KeyCode;
use skrift::shortcut::KeyEvent;
use skrift::shortcut::NamedKey;

fn ev(key: KeyCode, ctrl: bool, alt: bool, shift: bool) -> KeyEvent {
    KeyEvent { key, ctrl, alt, shift }
}

#[test]
fn parse_ctrl_s() {
    let p = parse_shortcut("Ctrl+S");
    assert!(p.ctrl);
    assert!(!p.alt);
    assert!(!p.shift);
    assert_eq!(p.key, None);
    assert_eq!(p.char_key, Some('s'));
}

#[test]
fn parse_alt_up() {
    let p = parse_shortcut("Alt+Up");
    assert!(p.alt);
    assert!(!p.ctrl);
    assert_eq!(p.key, Some(NamedKey::Up));
    assert_eq!(p.char_key, None);
}

#[test]
fn parse_ignores_unknown_tokens() {
    let p = parse_shortcut("Hyper+Shift+Left");
    assert!(p.shift);
    assert!(!p.ctrl);
    assert_eq!(p.key, Some(NamedKey::Left));
}

#[test]
fn char_shortcut_matches_case_insensitively() {
    assert!(Config::shortcut_matches("Ctrl+S", &ev(KeyCode::Char('s'), true, false, false)));
    assert!(Config::shortcut_matches("Ctrl+S", &ev(KeyCode::Char('S'), true, false, false)));
    // modifier state must match exactly
    assert!(!Config::shortcut_matches("Ctrl+S", &ev(KeyCode::Char('s'), false, false, false)));
    assert!(!Config::shortcut_matches("Ctrl+S", &ev(KeyCode::Char('s'), true, true, false)));
    assert!(!Config::shortcut_matches("Ctrl+S", &ev(KeyCode::Char('x'), true, false, false)));
}

#[test]
fn named_key_shortcut_requires_that_key() {
    assert!(Config::shortcut_matches("Alt+Up", &ev(KeyCode::Up, false, true, false)));
    assert!(!Config::shortcut_matches("Alt+Up", &ev(KeyCode::Down, false, true, false)));
    assert!(!Config::shortcut_matches("Alt+Up", &ev(KeyCode::Up, false, false, false)));
}

#[test]
fn bare_modifier_presses_never_match() {
    assert!(!Config::shortcut_matches("Ctrl+S", &ev(KeyCode::ControlKey, true, false, false)));
    assert!(!Config::shortcut_matches("Shift+S", &ev(KeyCode::ShiftKey, false, false, true)));
}

#[test]
fn navigation_keys_do_not_match_char_shortcuts() {
    assert!(!Config::shortcut_matches("Ctrl+S", &ev(KeyCode::Left, true, false, false)));
    assert!(!Config::shortcut_matches("Ctrl+S", &ev(KeyCode::FKey, true, false, false)));
}

#[test]
fn shortcut_without_key_matches_nothing() {
    assert!(!Config::shortcut_matches("Ctrl", &ev(KeyCode::Char('c'), true, false, false)));
    assert!(!Config::shortcut_matches("", &ev(KeyCode::Char('c'), false, false, false)));
}
