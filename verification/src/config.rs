//! Settings model: key bindings, theme, and the field-by-field defaulting
//! that makes loading total.
//!
//! A settings file is first reduced to a [`RawConfig`] — one `Option` per
//! recognised field, `None` for anything missing or of the wrong shape — and
//! [`Config::from_raw`] then substitutes the compiled-in default for every
//! absent field.  A reload therefore never fails: invalid fields fall back,
//! valid fields take effect.
use vstd::prelude::*;

use crate::scrollbar::ScrollBarStyle;
use crate::strutil::lower_of;
use crate::strutil::lowercase;
use crate::strutil::str_eq;

verus! {

/// An action a shortcut can be bound to.
#[derive(Debug, Clone, Copy, PartialEq, Eq, Hash, Structural)]
pub enum Binding {
    Save,
    Quit,
    Reload,
    MoveLineUp,
    MoveLineDown,
}

/// The binding named by a settings key, if any.
pub open spec fn spec_binding_from_str(s: Seq<char>) -> Option<Binding> {
    if s == "save"@ {
        Some(Binding::Save)
    } else if s == "quit"@ {
        Some(Binding::Quit)
    } else if s == "reload"@ {
        Some(Binding::Reload)
    } else if s == "move_line_up"@ {
        Some(Binding::MoveLineUp)
    } else if s == "move_line_down"@ {
        Some(Binding::MoveLineDown)
    } else {
        None
    }
}

/// The settings key that names a binding.
pub open spec fn spec_binding_name(b: Binding) -> Seq<char> {
    match b {
        Binding::Save => "save"@,
        Binding::Quit => "quit"@,
        Binding::Reload => "reload"@,
        Binding::MoveLineUp => "move_line_up"@,
        Binding::MoveLineDown => "move_line_down"@,
    }
}

impl Binding {
    /// Parse a settings key into a binding.
    pub fn from_str(s: &str) -> (r: Option<Binding>)
        ensures
            r == spec_binding_from_str(s@),
    {
        if str_eq(s, "save") {
            Some(Binding::Save)
        } else if str_eq(s, "quit") {
            Some(Binding::Quit)
        } else if str_eq(s, "reload") {
            Some(Binding::Reload)
        } else if str_eq(s, "move_line_up") {
            Some(Binding::MoveLineUp)
        } else if str_eq(s, "move_line_down") {
            Some(Binding::MoveLineDown)
        } else {
            None
        }
    }

    /// The settings key for this binding.
    pub fn name(&self) -> (r: &'static str)
        ensures
            r@ == spec_binding_name(*self),
    {
        match self {
            Binding::Save => "save",
            Binding::Quit => "quit",
            Binding::Reload => "reload",
            Binding::MoveLineUp => "move_line_up",
            Binding::MoveLineDown => "move_line_down",
        }
    }
}

/// Parsing a binding's settings key gives that binding back.
pub proof fn lemma_binding_name_roundtrip(b: Binding)
    ensures
        spec_binding_from_str(spec_binding_name(b)) == Some(b),
{
    broadcast use vstd::string::group_string_axioms;

    reveal_strlit("save");
    reveal_strlit("quit");
    reveal_strlit("reload");
    reveal_strlit("move_line_up");
    reveal_strlit("move_line_down");
    match b {
        Binding::Save => {
        },
        Binding::Quit => {
            assert("quit"@ != "save"@) by {
                assert("quit"@[0] != "save"@[0]);
            }
        },
        Binding::Reload => {
            assert("reload"@ != "save"@) by {
                assert("reload"@.len() != "save"@.len());
            }
            assert("reload"@ != "quit"@) by {
                assert("reload"@.len() != "quit"@.len());
            }
        },
        Binding::MoveLineUp => {
            assert("move_line_up"@ != "save"@) by {
                assert("move_line_up"@.len() != "save"@.len());
            }
            assert("move_line_up"@ != "quit"@) by {
                assert("move_line_up"@.len() != "quit"@.len());
            }
            assert("move_line_up"@ != "reload"@) by {
                assert("move_line_up"@.len() != "reload"@.len());
            }
        },
        Binding::MoveLineDown => {
            assert("move_line_down"@ != "save"@) by {
                assert("move_line_down"@.len() != "save"@.len());
            }
            assert("move_line_down"@ != "quit"@) by {
                assert("move_line_down"@.len() != "quit"@.len());
            }
            assert("move_line_down"@ != "reload"@) by {
                assert("move_line_down"@.len() != "reload"@.len());
            }
            assert("move_line_down"@ != "move_line_up"@) by {
                assert("move_line_down"@.len() != "move_line_up"@.len());
            }
        },
    }
}

/// Caret rendering style.
#[derive(Debug, Clone, Copy, PartialEq, Eq, Hash, Structural)]
pub enum Cursor {
    Normal,
    Caret,
    Dim,
    Block,
    Heavy,
    Simple,
}

/// The cursor style a lowercased settings value names; anything unknown is
/// the simple style.
pub open spec fn spec_cursor_of_lower(t: Seq<char>) -> Cursor {
    if t == "normal"@ {
        Cursor::Normal
    } else if t == "caret"@ {
        Cursor::Caret
    } else if t == "dim"@ {
        Cursor::Dim
    } else if t == "block"@ {
        Cursor::Block
    } else if t == "heavy"@ {
        Cursor::Heavy
    } else if t == "simple"@ {
        Cursor::Simple
    } else {
        Cursor::Simple
    }
}

/// The cursor style a settings value names, compared case-insensitively.
pub open spec fn spec_cursor_from_str(s: Seq<char>) -> Cursor {
    spec_cursor_of_lower(lower_of(s))
}

impl Cursor {
    /// Parse a settings value into a cursor style; unknown values give the
    /// simple style.  On ASCII input — every value the settings format
    /// names — the comparison is pinned to the character-wise lowering, so
    /// concrete inputs prove concrete styles.
    pub fn from_str(s: &str) -> (r: Cursor)
        ensures
            r == spec_cursor_from_str(s@),
            crate::strutil::is_ascii_seq(s@) ==> r == spec_cursor_of_lower(
                crate::strutil::ascii_lower_seq(s@),
            ),
    {
        let low = lowercase(s);
        let l = low.as_str();
        if str_eq(l, "normal") {
            Cursor::Normal
        } else if str_eq(l, "caret") {
            Cursor::Caret
        } else if str_eq(l, "dim") {
            Cursor::Dim
        } else if str_eq(l, "block") {
            Cursor::Block
        } else if str_eq(l, "heavy") {
            Cursor::Heavy
        } else {
            Cursor::Simple
        }
    }
}

/// The scrollbar style a settings value names; anything unknown is rounded,
/// the compiled-in default.
pub open spec fn spec_scrollbar_style_from_str(s: Seq<char>) -> ScrollBarStyle {
    if s == "boxy"@ {
        ScrollBarStyle::Boxy
    } else {
        ScrollBarStyle::Rounded
    }
}

/// Parse a settings value into a scrollbar style.
pub fn scrollbar_style_from_str(s: &str) -> (r: ScrollBarStyle)
    ensures
        r == spec_scrollbar_style_from_str(s@),
{
    if str_eq(s, "boxy") {
        ScrollBarStyle::Boxy
    } else {
        ScrollBarStyle::Rounded
    }
}

/// The shortcut strings bound to each action; `None` where the settings
/// bound nothing.
#[derive(Debug, Clone)]
pub struct Bindings {
    pub save: Option<String>,
    pub quit: Option<String>,
    pub reload: Option<String>,
    pub move_line_up: Option<String>,
    pub move_line_down: Option<String>,
}

/// The characters of an optional string.
pub open spec fn opt_str_view(o: Option<String>) -> Option<Seq<char>> {
    match o {
        Some(s) => Some(s@),
        None => None,
    }
}

/// The shortcut bound to an action.
pub open spec fn spec_binding_lookup(bs: Bindings, b: Binding) -> Option<Seq<char>> {
    match b {
        Binding::Save => opt_str_view(bs.save),
        Binding::Quit => opt_str_view(bs.quit),
        Binding::Reload => opt_str_view(bs.reload),
        Binding::MoveLineUp => opt_str_view(bs.move_line_up),
        Binding::MoveLineDown => opt_str_view(bs.move_line_down),
    }
}

impl Bindings {
    /// The shortcut string bound to `b`, if any.
    pub fn get(&self, b: &Binding) -> (r: Option<&String>)
        ensures
            match spec_binding_lookup(*self, *b) {
                Some(t) => r is Some && r->0@ == t,
                None => r is None,
            },
    {
        match b {
            Binding::Save => self.save.as_ref(),
            Binding::Quit => self.quit.as_ref(),
            Binding::Reload => self.reload.as_ref(),
            Binding::MoveLineUp => self.move_line_up.as_ref(),
            Binding::MoveLineDown => self.move_line_down.as_ref(),
        }
    }
}

/// Theme and behaviour settings, fully resolved.
#[derive(Debug, Clone)]
pub struct Theme {
    /// Background colour, as written in the settings (hex string).
    pub background: String,
    /// Foreground/text colour.
    pub foreground: String,
    /// Font family name.
    pub font_family: String,
    /// Font size in points.
    pub font_size: i32,
    /// Selection colour.
    pub selection_color: String,
    /// Whether the caret flashes.
    pub cursor_flash: bool,
    /// Caret flash interval, in milliseconds.
    pub cursor_flash_interval_ms: u64,
    /// Colour marking a negative status (file missing).
    pub negative_color: String,
    /// Caret rendering style.
    pub cursor_style: Cursor,
    /// Scrollbar thumb style.
    pub scrollbar_style: ScrollBarStyle,
}

impl Theme {
    /// The 32-bit value a colour string of this theme denotes; unparseable
    /// strings give white.
    pub fn color_from_str(&self, color: &str) -> (r: u32)
        ensures
            r as int == crate::hexcolor::spec_color_from_str(color@),
    {
        crate::hexcolor::parse_hex_color(color)
    }
}

/// Editor behaviour settings.
#[derive(Debug, Clone, Copy, PartialEq, Eq, Structural)]
pub struct EditorSettings {
    /// Lines moved per wheel notch.
    pub scroll_multiplier: i32,
}

/// A full configuration: bindings plus theme.
#[derive(Debug, Clone)]
pub struct Config {
    pub bindings: Bindings,
    pub theme: Theme,
    pub editor: EditorSettings,
}

/// A settings file reduced to recognised fields: `None` for anything
/// missing or of the wrong shape.
#[derive(Debug, Clone)]
pub struct RawTheme {
    pub background: Option<String>,
    pub foreground: Option<String>,
    pub font_family: Option<String>,
    pub font_size: Option<i64>,
    pub selection_color: Option<String>,
    pub cursor_flash: Option<bool>,
    pub cursor_flash_interval_ms: Option<u64>,
    pub negative_color: Option<String>,
    pub cursor_style: Option<String>,
    pub scrollbar_style: Option<String>,
}

/// The raw bindings table: present keys with their raw values.  `None` for
/// the whole table means the file had no bindings section.
#[derive(Debug, Clone)]
pub struct RawBindings {
    pub save: Option<String>,
    pub quit: Option<String>,
    pub reload: Option<String>,
    pub move_line_up: Option<String>,
    pub move_line_down: Option<String>,
}

/// Everything a settings file may contribute.
#[derive(Debug, Clone)]
pub struct RawConfig {
    pub bindings: Option<RawBindings>,
    pub theme: RawTheme,
    pub scroll_multiplier: Option<i64>,
}

/// The raw record with nothing set; resolving it gives the compiled-in
/// defaults.
pub open spec fn spec_empty_raw() -> RawConfig {
    RawConfig {
        bindings: None,
        theme: RawTheme {
            background: None,
            foreground: None,
            font_family: None,
            font_size: None,
            selection_color: None,
            cursor_flash: None,
            cursor_flash_interval_ms: None,
            negative_color: None,
            cursor_style: None,
            scrollbar_style: None,
        },
        scroll_multiplier: None,
    }
}

impl RawConfig {
    /// A raw record with nothing set: resolving it gives the compiled-in
    /// defaults.
    pub fn empty() -> (r: RawConfig)
        ensures
            r == spec_empty_raw(),
    {
        RawConfig {
            bindings: None,
            theme: RawTheme {
                background: None,
                foreground: None,
                font_family: None,
                font_size: None,
                selection_color: None,
                cursor_flash: None,
                cursor_flash_interval_ms: None,
                negative_color: None,
                cursor_style: None,
                scrollbar_style: None,
            },
            scroll_multiplier: None,
        }
    }
}

/// An `i64` settings value as an `i32`, when it fits; out-of-range values
/// count as invalid and fall back to the default.
pub open spec fn spec_i32_or(v: Option<i64>, dflt: i32) -> i32 {
    match v {
        Some(x) => if -0x8000_0000 <= x <= 0x7fff_ffff {
            x as i32
        } else {
            dflt
        },
        None => dflt,
    }
}

/// Field-by-field resolution: `c` is `raw` with every absent or invalid
/// field replaced by its compiled-in default.  This is the whole contract of
/// [`Config::from_raw`], and every loaded configuration satisfies it for
/// some raw record.
pub open spec fn spec_resolves(raw: RawConfig, c: Config) -> bool {
    &&& c.theme.background@ == (match raw.theme.background {
        Some(s) => s@,
        None => "#1e1e1e"@,
    })
    &&& c.theme.foreground@ == (match raw.theme.foreground {
        Some(s) => s@,
        None => "#c0c0c0"@,
    })
    &&& c.theme.font_family@ == (match raw.theme.font_family {
        Some(s) => s@,
        None => "Courier"@,
    })
    &&& c.theme.font_size == spec_i32_or(raw.theme.font_size, 16)
    &&& c.theme.selection_color@ == (match raw.theme.selection_color {
        Some(s) => s@,
        None => "#51a9e8ff"@,
    })
    &&& c.theme.cursor_flash == (match raw.theme.cursor_flash {
        Some(b) => b,
        None => true,
    })
    &&& c.theme.cursor_flash_interval_ms == (match raw.theme.cursor_flash_interval_ms {
        Some(v) => v,
        None => 500u64,
    })
    &&& c.theme.negative_color@ == (match raw.theme.negative_color {
        Some(s) => s@,
        None => "#FF0000"@,
    })
    &&& c.theme.cursor_style == (match raw.theme.cursor_style {
        Some(s) => spec_cursor_from_str(s@),
        None => Cursor::Simple,
    })
    &&& c.theme.scrollbar_style == (match raw.theme.scrollbar_style {
        Some(s) => spec_scrollbar_style_from_str(s@),
        None => ScrollBarStyle::Rounded,
    })
    &&& c.editor.scroll_multiplier == spec_i32_or(raw.scroll_multiplier, 3)
    &&& match raw.bindings {
        Some(rb) => {
            &&& opt_str_view(c.bindings.save) == opt_str_view(rb.save)
            &&& opt_str_view(c.bindings.quit) == opt_str_view(rb.quit)
            &&& opt_str_view(c.bindings.reload) == opt_str_view(rb.reload)
            &&& opt_str_view(c.bindings.move_line_up) == opt_str_view(rb.move_line_up)
            &&& opt_str_view(c.bindings.move_line_down) == opt_str_view(rb.move_line_down)
        },
        None => {
            &&& opt_str_view(c.bindings.save) == Some("Ctrl+S"@)
            &&& opt_str_view(c.bindings.quit) == Some("Ctrl+Q"@)
            &&& opt_str_view(c.bindings.reload) == Some("Ctrl+R"@)
            &&& opt_str_view(c.bindings.move_line_up) == Some("Alt+Up"@)
            &&& opt_str_view(c.bindings.move_line_down) == Some("Alt+Down"@)
        },
    }
}

impl Config {
    /// Resolve a raw settings record field by field: every present field
    /// takes effect, every absent or invalid one falls back to its
    /// compiled-in default.  A missing bindings section falls back to the
    /// default table as a whole, matching the settings format.
    pub fn from_raw(raw: RawConfig) -> (c: Config)
        ensures
            spec_resolves(raw, c),
    {
        let bindings = match raw.bindings {
            Some(rb) => Bindings {
                save: rb.save,
                quit: rb.quit,
                reload: rb.reload,
                move_line_up: rb.move_line_up,
                move_line_down: rb.move_line_down,
            },
            None => Bindings {
                save: Some("Ctrl+S".to_owned()),
                quit: Some("Ctrl+Q".to_owned()),
                reload: Some("Ctrl+R".to_owned()),
                move_line_up: Some("Alt+Up".to_owned()),
                move_line_down: Some("Alt+Down".to_owned()),
            },
        };
        let font_size: i32 = match raw.theme.font_size {
            Some(v) => if i32::MIN as i64 <= v && v <= i32::MAX as i64 {
                v as i32
            } else {
                16
            },
            None => 16,
        };
        let scroll_multiplier: i32 = match raw.scroll_multiplier {
            Some(v) => if i32::MIN as i64 <= v && v <= i32::MAX as i64 {
                v as i32
            } else {
                3
            },
            None => 3,
        };
        let cursor_style = match raw.theme.cursor_style {
            Some(s) => Cursor::from_str(s.as_str()),
            None => Cursor::Simple,
        };
        let scrollbar_style = match raw.theme.scrollbar_style {
            Some(s) => scrollbar_style_from_str(s.as_str()),
            None => ScrollBarStyle::Rounded,
        };
        Config {
            bindings,
            theme: Theme {
                background: match raw.theme.background {
                    Some(s) => s,
                    None => "#1e1e1e".to_owned(),
                },
                foreground: match raw.theme.foreground {
                    Some(s) => s,
                    None => "#c0c0c0".to_owned(),
                },
                font_family: match raw.theme.font_family {
                    Some(s) => s,
                    None => "Courier".to_owned(),
                },
                font_size,
                selection_color: match raw.theme.selection_color {
                    Some(s) => s,
                    None => "#51a9e8ff".to_owned(),
                },
                cursor_flash: match raw.theme.cursor_flash {
                    Some(b) => b,
                    None => true,
                },
                cursor_flash_interval_ms: match raw.theme.cursor_flash_interval_ms {
                    Some(v) => v,
                    None => 500,
                },
                negative_color: match raw.theme.negative_color {
                    Some(s) => s,
                    None => "#FF0000".to_owned(),
                },
                cursor_style,
                scrollbar_style,
            },
            editor: EditorSettings { scroll_multiplier },
        }
    }

    /// The compiled-in default configuration.
    pub fn default() -> (c: Config)
        ensures
            c.theme.background@ == "#1e1e1e"@,
            c.theme.foreground@ == "#c0c0c0"@,
            c.theme.font_family@ == "Courier"@,
            c.theme.font_size == 16,
            c.theme.selection_color@ == "#51a9e8ff"@,
            c.theme.cursor_flash == true,
            c.theme.cursor_flash_interval_ms == 500,
            c.theme.negative_color@ == "#FF0000"@,
            c.theme.cursor_style == Cursor::Simple,
            c.theme.scrollbar_style == ScrollBarStyle::Rounded,
            c.editor.scroll_multiplier == 3,
            opt_str_view(c.bindings.save) == Some("Ctrl+S"@),
            opt_str_view(c.bindings.quit) == Some("Ctrl+Q"@),
            opt_str_view(c.bindings.reload) == Some("Ctrl+R"@),
            opt_str_view(c.bindings.move_line_up) == Some("Alt+Up"@),
            opt_str_view(c.bindings.move_line_down) == Some("Alt+Down"@),
    {
        Config::from_raw(RawConfig::empty())
    }
}

} // verus!
