//! Shortcut strings and key events.
//!
//! A shortcut such as `"Ctrl+S"` is split at `+` into tokens: the modifier
//! names set flags, an arrow name selects a named key, and any single
//! character becomes the (lowercased) character key — later tokens of the
//! same kind win.  Matching compares the parsed pattern against a key event
//! as the host reports it from its input source.
use vstd::prelude::*;
use vstd::string::StrSliceExecFns;

use crate::config::Config;
use crate::strutil::chars_eq_str;
use crate::strutil::spec_ascii_lower;

verus! {

/// A named (non-character) key a shortcut can require.
#[derive(Debug, Clone, Copy, PartialEq, Eq, Structural)]
pub enum NamedKey {
    Left,
    Right,
    Up,
    Down,
}

/// The key of an input event, as the host reports it.
#[derive(Debug, Clone, Copy, PartialEq, Eq, Structural)]
pub enum KeyCode {
    Left,
    Right,
    Up,
    Down,
    /// Any function key.
    FKey,
    /// A control modifier key pressed on its own.
    ControlKey,
    /// An alt modifier key pressed on its own.
    AltKey,
    /// A shift modifier key pressed on its own.
    ShiftKey,
    /// A key with a character value.
    Char(char),
    /// Anything else.
    Other,
}

/// One key event: the key plus the modifier state.
#[derive(Debug, Clone, Copy, PartialEq, Eq, Structural)]
pub struct KeyEvent {
    pub key: KeyCode,
    pub ctrl: bool,
    pub alt: bool,
    pub shift: bool,
}

/// A parsed shortcut: required modifiers and the required key.
#[derive(Debug, Clone, Copy)]
pub struct ShortcutPattern {
    pub ctrl: bool,
    pub alt: bool,
    pub shift: bool,
    pub key: Option<NamedKey>,
    pub char_key: Option<char>,
}

/// Lower an ASCII upper-case letter.
pub fn lower_char(c: char) -> (r: char)
    ensures
        r == spec_ascii_lower(c),
{
    let u = c as u32;
    if 65 <= u && u <= 90 {
        ((u + 32) as u8) as char
    } else {
        c
    }
}

/// The pattern with nothing required yet.
pub open spec fn spec_empty_pattern() -> ShortcutPattern {
    ShortcutPattern { ctrl: false, alt: false, shift: false, key: None, char_key: None }
}

/// Fold one `+`-separated token into the pattern.
pub open spec fn spec_apply_token(p: ShortcutPattern, tok: Seq<char>) -> ShortcutPattern {
    if tok == "Ctrl"@ {
        ShortcutPattern { ctrl: true, ..p }
    } else if tok == "Alt"@ {
        ShortcutPattern { alt: true, ..p }
    } else if tok == "Shift"@ {
        ShortcutPattern { shift: true, ..p }
    } else if tok == "Left"@ {
        ShortcutPattern { key: Some(NamedKey::Left), ..p }
    } else if tok == "Right"@ {
        ShortcutPattern { key: Some(NamedKey::Right), ..p }
    } else if tok == "Up"@ {
        ShortcutPattern { key: Some(NamedKey::Up), ..p }
    } else if tok == "Down"@ {
        ShortcutPattern { key: Some(NamedKey::Down), ..p }
    } else if tok.len() == 1 {
        ShortcutPattern { char_key: Some(spec_ascii_lower(tok[0])), ..p }
    } else {
        p
    }
}

/// Scan the shortcut text left to right, cutting at `+` and folding each
/// token into the pattern.
pub open spec fn spec_scan_shortcut(s: Seq<char>, p: ShortcutPattern, tok: Seq<char>) -> ShortcutPattern
    decreases s.len(),
{
    if s.len() == 0 {
        spec_apply_token(p, tok)
    } else if s[0] == '+' {
        spec_scan_shortcut(s.skip(1), spec_apply_token(p, tok), Seq::empty())
    } else {
        spec_scan_shortcut(s.skip(1), p, tok.push(s[0]))
    }
}

/// The pattern a shortcut string denotes.
pub open spec fn spec_parse_shortcut(s: Seq<char>) -> ShortcutPattern {
    spec_scan_shortcut(s, spec_empty_pattern(), Seq::empty())
}

/// Whether a named key requirement is met by the event's key.
pub open spec fn spec_named_key_matches(nk: NamedKey, k: KeyCode) -> bool {
    match nk {
        NamedKey::Left => k is Left,
        NamedKey::Right => k is Right,
        NamedKey::Up => k is Up,
        NamedKey::Down => k is Down,
    }
}

/// The lowercased character value of the event's key, if it has one.
pub open spec fn spec_event_char(k: KeyCode) -> Option<char> {
    match k {
        KeyCode::Char(c) => Some(spec_ascii_lower(c)),
        _ => None,
    }
}

/// Whether a pattern matches a key event.  A bare modifier key never
/// matches; a named-key pattern requires that key and the exact modifier
/// state; a character pattern additionally rejects navigation and function
/// keys, then compares the lowercased character and the exact modifier
/// state.  A pattern that requires no key matches nothing.
pub open spec fn spec_shortcut_matches(p: ShortcutPattern, ev: KeyEvent) -> bool {
    if ev.key is ControlKey || ev.key is AltKey || ev.key is ShiftKey {
        false
    } else if p.key is Some {
        &&& spec_named_key_matches(p.key->0, ev.key)
        &&& p.ctrl == ev.ctrl
        &&& p.alt == ev.alt
        &&& p.shift == ev.shift
    } else if p.char_key is Some {
        if ev.key is Left || ev.key is Right || ev.key is Up || ev.key is Down
            || ev.key is FKey {
            false
        } else {
            &&& spec_event_char(ev.key) == Some(p.char_key->0)
            &&& p.ctrl == ev.ctrl
            &&& p.alt == ev.alt
            &&& p.shift == ev.shift
        }
    } else {
        false
    }
}

/// Fold one token into the pattern.
fn apply_token(p: ShortcutPattern, tok: &Vec<char>) -> (r: ShortcutPattern)
    ensures
        r == spec_apply_token(p, tok@),
{
    if chars_eq_str(tok, "Ctrl") {
        ShortcutPattern { ctrl: true, ..p }
    } else if chars_eq_str(tok, "Alt") {
        ShortcutPattern { alt: true, ..p }
    } else if chars_eq_str(tok, "Shift") {
        ShortcutPattern { shift: true, ..p }
    } else if chars_eq_str(tok, "Left") {
        ShortcutPattern { key: Some(NamedKey::Left), ..p }
    } else if chars_eq_str(tok, "Right") {
        ShortcutPattern { key: Some(NamedKey::Right), ..p }
    } else if chars_eq_str(tok, "Up") {
        ShortcutPattern { key: Some(NamedKey::Up), ..p }
    } else if chars_eq_str(tok, "Down") {
        ShortcutPattern { key: Some(NamedKey::Down), ..p }
    } else if tok.len() == 1 {
        ShortcutPattern { char_key: Some(lower_char(tok[0])), ..p }
    } else {
        p
    }
}

/// Parse a shortcut string into a pattern.
pub fn parse_shortcut(s: &str) -> (p: ShortcutPattern)
    ensures
        p == spec_parse_shortcut(s@),
{
    let n = s.unicode_len();
    let mut p = ShortcutPattern { ctrl: false, alt: false, shift: false, key: None, char_key: None };
    let mut tok: Vec<char> = Vec::new();
    let mut i: usize = 0;
    proof {
        assert(s@.skip(0) =~= s@);
        assert(tok@ =~= Seq::<char>::empty());
    }
    while i < n
        invariant
            i <= n,
            n == s@.len(),
            spec_scan_shortcut(s@.skip(i as int), p, tok@) == spec_parse_shortcut(s@),
        decreases n - i,
    {
        let c = s.get_char(i);
        proof {
            assert(s@.skip(i as int)[0] == s@[i as int]);
            assert(s@.skip(i as int).skip(1) =~= s@.skip(i as int + 1));
        }
        if c == '+' {
            p = apply_token(p, &tok);
            tok = Vec::new();
            proof {
                assert(tok@ =~= Seq::<char>::empty());
            }
        } else {
            tok.push(c);
        }
        i += 1;
    }
    proof {
        assert(s@.skip(n as int) =~= Seq::<char>::empty());
    }
    apply_token(p, &tok)
}

impl Config {
    /// Whether the key event satisfies the shortcut string, which the host
    /// calls for each configured binding on a key press.
    pub fn shortcut_matches(shortcut: &str, ev: &KeyEvent) -> (r: bool)
        ensures
            r == spec_shortcut_matches(spec_parse_shortcut(shortcut@), *ev),
    {
        let p = parse_shortcut(shortcut);
        match ev.key {
            KeyCode::ControlKey | KeyCode::AltKey | KeyCode::ShiftKey => {
                return false;
            },
            _ => {
            },
        }
        if let Some(nk) = p.key {
            let key_ok = match (nk, ev.key) {
                (NamedKey::Left, KeyCode::Left) => true,
                (NamedKey::Right, KeyCode::Right) => true,
                (NamedKey::Up, KeyCode::Up) => true,
                (NamedKey::Down, KeyCode::Down) => true,
                _ => false,
            };
            return key_ok && p.ctrl == ev.ctrl && p.alt == ev.alt && p.shift == ev.shift;
        }
        if let Some(ck) = p.char_key {
            match ev.key {
                KeyCode::Left | KeyCode::Right | KeyCode::Up | KeyCode::Down | KeyCode::FKey => {
                    return false;
                },
                KeyCode::Char(c) => {
                    return lower_char(c) == ck && p.ctrl == ev.ctrl && p.alt == ev.alt && p.shift
                        == ev.shift;
                },
                _ => {
                    return false;
                },
            }
        }
        false
    }
}

} // verus!
