use skrift::config::Binding;
use skrift::config::Config;
use skrift::config::Cursor;
use skrift::config::RawConfig;
use skrift::hexcolor::parse_hex_color;
use skrift::scrollbar::ScrollBarStyle;

#[test]
fn binding_from_str_parses_all_keys() {
    assert_eq!(Binding::from_str("save"), Some(Binding::Save));
    assert_eq!(Binding::from_str("quit"), Some(Binding::Quit));
    assert_eq!(Binding::from_str("reload"), Some(Binding::Reload));
    assert_eq!(Binding::from_str("move_line_up"), Some(Binding::MoveLineUp));
    assert_eq!(Binding::from_str("move_line_down"), Some(Binding::MoveLineDown));
    assert_eq!(Binding::from_str("Save"), None);
    assert_eq!(Binding::from_str(""), None);
}

#[test]
fn binding_name_round_trips() {
    for b in [
        Binding::Save,
        Binding::Quit,
        Binding::Reload,
        Binding::MoveLineUp,
        Binding::MoveLineDown,
    ] {
        assert_eq!(Binding::from_str(b.name()), Some(b));
    }
}

#[test]
fn cursor_from_str_is_case_insensitive() {
    assert_eq!(Cursor::from_str("normal"), Cursor::Normal);
    assert_eq!(Cursor::from_str("BLOCK"), Cursor::Block);
    assert_eq!(Cursor::from_str("Heavy"), Cursor::Heavy);
    assert_eq!(Cursor::from_str("dim"), Cursor::Dim);
    assert_eq!(Cursor::from_str("caret"), Cursor::Caret);
    assert_eq!(Cursor::from_str("simple"), Cursor::Simple);
    assert_eq!(Cursor::from_str("unknown"), Cursor::Simple);
    assert_eq!(Cursor::from_str(""), Cursor::Simple);
}

#[test]
fn default_config_values() {
    let c = Config::default();
    assert_eq!(c.theme.background, "#1e1e1e");
    assert_eq!(c.theme.foreground, "#c0c0c0");
    assert_eq!(c.theme.font_family, "Courier");
    assert_eq!(c.theme.font_size, 16);
    assert_eq!(c.theme.selection_color, "#51a9e8ff");
    assert!(c.theme.cursor_flash);
    assert_eq!(c.theme.cursor_flash_interval_ms, 500);
    assert_eq!(c.theme.negative_color, "#FF0000");
    assert_eq!(c.theme.cursor_style, Cursor::Simple);
    assert_eq!(c.theme.scrollbar_style, ScrollBarStyle::Rounded);
    assert_eq!(c.editor.scroll_multiplier, 3);
    assert_eq!(c.bindings.get(&Binding::Save).map(String::as_str), Some("Ctrl+S"));
    assert_eq!(c.bindings.get(&Binding::Quit).map(String::as_str), Some("Ctrl+Q"));
    assert_eq!(c.bindings.get(&Binding::Reload).map(String::as_str), Some("Ctrl+R"));
    assert_eq!(c.bindings.get(&Binding::MoveLineUp).map(String::as_str), Some("Alt+Up"));
    assert_eq!(c.bindings.get(&Binding::MoveLineDown).map(String::as_str), Some("Alt+Down"));
}

#[test]
fn from_raw_mixes_given_and_default_fields() {
    let mut raw = RawConfig::empty();
    raw.theme.font_size = Some(20);
    raw.theme.background = Some("#000000".to_string());
    raw.theme.cursor_flash = Some(false);
    let c = Config::from_raw(raw);
    assert_eq!(c.theme.font_size, 20);
    assert_eq!(c.theme.background, "#000000");
    assert!(!c.theme.cursor_flash);
    // everything absent keeps its default
    assert_eq!(c.theme.foreground, "#c0c0c0");
    assert_eq!(c.theme.cursor_flash_interval_ms, 500);
    assert_eq!(c.bindings.get(&Binding::Save).map(String::as_str), Some("Ctrl+S"));
}

#[test]
fn from_raw_rejects_out_of_range_numbers() {
    let mut raw = RawConfig::empty();
    raw.theme.font_size = Some(1 << 40);
    raw.scroll_multiplier = Some(-(1 << 40));
    let c = Config::from_raw(raw);
    assert_eq!(c.theme.font_size, 16);
    assert_eq!(c.editor.scroll_multiplier, 3);
}

#[test]
fn load_from_str_applies_valid_fields_and_defaults_the_rest() {
    let text = "\
[theme]
font_size = 20
background = 3
cursor_style = \"Block\"
scrollbar_style = \"boxy\"
cursor_flash_interval = 0.25

[editor]
scroll_multiplier = 5
";
    let c = Config::load_from_str(text);
    assert_eq!(c.theme.font_size, 20);
    // background holds an integer, not a string: it falls back
    assert_eq!(c.theme.background, "#1e1e1e");
    assert_eq!(c.theme.cursor_style, Cursor::Block);
    assert_eq!(c.theme.scrollbar_style, ScrollBarStyle::Boxy);
    // the interval is given in seconds and stored in milliseconds
    assert_eq!(c.theme.cursor_flash_interval_ms, 250);
    assert_eq!(c.editor.scroll_multiplier, 5);
    // untouched fields keep their defaults
    assert_eq!(c.theme.foreground, "#c0c0c0");
    assert!(c.theme.cursor_flash);
}

#[test]
fn load_from_str_empty_and_invalid_text_give_defaults() {
    let empty = Config::load_from_str("");
    assert_eq!(empty.theme.font_size, 16);
    assert_eq!(empty.theme.background, "#1e1e1e");
    let broken = Config::load_from_str("= not toml at all [");
    assert_eq!(broken.theme.font_size, 16);
    assert_eq!(broken.bindings.get(&Binding::Quit).map(String::as_str), Some("Ctrl+Q"));
}

#[test]
fn load_from_str_bindings_table_replaces_defaults() {
    let text = "\
[bindings]
save = \"Ctrl+W\"
quit = 7
";
    let c = Config::load_from_str(text);
    assert_eq!(c.bindings.get(&Binding::Save).map(String::as_str), Some("Ctrl+W"));
    // a present key with a non-string value reads as the empty shortcut
    assert_eq!(c.bindings.get(&Binding::Quit).map(String::as_str), Some(""));
    // keys the table does not bind stay unbound
    assert_eq!(c.bindings.get(&Binding::Reload), None);
}

#[test]
fn hex_colors_parse_exactly() {
    assert_eq!(parse_hex_color("#1e1e1e"), 0x1e1e1e);
    assert_eq!(parse_hex_color("0xFF0000"), 0xff0000);
    assert_eq!(parse_hex_color("#51a9e8ff"), 0x51a9e8ff);
    assert_eq!(parse_hex_color("c0c0c0"), 0xc0c0c0);
    assert_eq!(parse_hex_color("+FF"), 0xff);
    assert_eq!(parse_hex_color("0"), 0);
}

#[test]
fn hex_color_fallback_is_white() {
    assert_eq!(parse_hex_color(""), 0xffffff);
    assert_eq!(parse_hex_color("#"), 0xffffff);
    assert_eq!(parse_hex_color("red"), 0xffffff);
    assert_eq!(parse_hex_color("-1"), 0xffffff);
    assert_eq!(parse_hex_color("++F"), 0xffffff);
    // nine digits overflow 32 bits
    assert_eq!(parse_hex_color("100000000"), 0xffffff);
    assert_eq!(parse_hex_color("#0xFF"), 0xffffff);
}

#[test]
fn theme_color_from_str_uses_the_parser() {
    let c = Config::default();
    assert_eq!(c.theme.color_from_str(&c.theme.negative_color), 0xff0000);
    assert_eq!(c.theme.color_from_str("nonsense"), 0xffffff);
}
