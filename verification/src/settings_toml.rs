//! The TOML boundary of the settings loader.
//!
//! The parser of the `toml` crate turns the settings text into an opaque
//! `toml::Value`; the small trusted wrappers below read single fields out of
//! it.  Parsing and every accessor are pure functions of their arguments, so
//! each result carries a name: `toml_doc_ok` / `toml_doc` for the parse, and
//! `toml_has_key` / `toml_entry` plus the typed payload names for what the
//! value holds.  Everything past the wrappers — reducing the fields to a
//! [`RawConfig`] and resolving defaults — is verified code, and the loader's
//! contract ties its result to the text through these names.
use vstd::prelude::*;

use crate::config::opt_str_view;
use crate::config::spec_empty_raw;
use crate::config::spec_resolves;
use crate::config::Config;
use crate::config::RawBindings;
use crate::config::RawConfig;
use crate::config::RawTheme;

verus! {

/// `toml::Value`, opaque to the verifier; values of it are only carried
/// between the trusted accessors below, which describe its contents through
/// the uninterpreted names that follow.
#[verifier::external_type_specification]
#[verifier::external_body]
pub struct ExTomlValue(toml::Value);

/// Whether `s` is a well-formed TOML document.
pub uninterp spec fn toml_doc_ok(s: Seq<char>) -> bool;

/// The value a well-formed TOML document parses to: a function of the text
/// alone.
pub uninterp spec fn toml_doc(s: Seq<char>) -> toml::Value;

/// Whether the value is a table holding an entry under `key`.
pub uninterp spec fn toml_has_key(v: toml::Value, key: Seq<char>) -> bool;

/// The entry under `key`, where `toml_has_key` holds.
pub uninterp spec fn toml_entry(v: toml::Value, key: Seq<char>) -> toml::Value;

/// The characters of a string value; `None` for any other shape.
pub uninterp spec fn toml_str_payload(v: toml::Value) -> Option<Seq<char>>;

/// The payload of an integer value.
pub uninterp spec fn toml_int_payload(v: toml::Value) -> Option<i64>;

/// The payload of a boolean value.
pub uninterp spec fn toml_bool_payload(v: toml::Value) -> Option<bool>;

/// The payload of a float value read as seconds, in whole milliseconds;
/// `None` for non-floats and for negative or non-finite floats.
pub uninterp spec fn toml_millis_payload(v: toml::Value) -> Option<u64>;

/// Relies on `toml::from_str::<toml::Value>`: parsing is a function of the
/// text alone; it returns `Ok` exactly on well-formed TOML and never
/// panics.
#[verifier::external_body]
fn toml_parse(text: &str) -> (r: Option<toml::Value>)
    ensures
        r is Some <==> toml_doc_ok(text@),
        r matches Some(v) ==> v == toml_doc(text@),
{
    toml::from_str::<toml::Value>(text).ok()
}

/// Relies on `toml::Value::get`: a pure lookup — the entry under `key` when
/// the value is a table holding it, `None` otherwise.
#[verifier::external_body]
fn toml_get<'a>(v: &'a toml::Value, key: &str) -> (r: Option<&'a toml::Value>)
    ensures
        r is Some <==> toml_has_key(*v, key@),
        r matches Some(w) ==> *w == toml_entry(*v, key@),
{
    v.get(key)
}

/// Relies on `toml::Value::as_str`: the payload of a string value.
#[verifier::external_body]
fn toml_as_str(v: &toml::Value) -> (r: Option<String>)
    ensures
        opt_str_view(r) == toml_str_payload(*v),
{
    v.as_str().map(|s| s.to_owned())
}

/// Relies on `toml::Value::as_integer`: the payload of an integer value.
#[verifier::external_body]
fn toml_as_integer(v: &toml::Value) -> (r: Option<i64>)
    ensures
        r == toml_int_payload(*v),
{
    v.as_integer()
}

/// Relies on `toml::Value::as_bool`: the payload of a boolean value.
#[verifier::external_body]
fn toml_as_bool(v: &toml::Value) -> (r: Option<bool>)
    ensures
        r == toml_bool_payload(*v),
{
    v.as_bool()
}

/// Relies on `toml::Value::as_float` and
/// `std::time::Duration::try_from_secs_f64` / `as_millis`: a float value,
/// read as a duration in seconds, in whole milliseconds; `None` for
/// non-float values and for negative or non-finite ones.  `try_from_secs_f64`
/// returns `Err` on those instead of panicking.
#[verifier::external_body]
fn toml_as_secs_to_millis(v: &toml::Value) -> (r: Option<u64>)
    ensures
        r == toml_millis_payload(*v),
{
    match v.as_float() {
        Some(secs) => std::time::Duration::try_from_secs_f64(secs).ok().and_then(
            |d| u64::try_from(d.as_millis()).ok(),
        ),
        None => None,
    }
}

/// The string payload of `table`'s entry under `key`, if both exist.
pub open spec fn spec_doc_str(doc: toml::Value, table: Seq<char>, key: Seq<char>) -> Option<
    Seq<char>,
> {
    if toml_has_key(doc, table) && toml_has_key(toml_entry(doc, table), key) {
        toml_str_payload(toml_entry(toml_entry(doc, table), key))
    } else {
        None
    }
}

/// The integer payload of `table`'s entry under `key`, if both exist.
pub open spec fn spec_doc_int(doc: toml::Value, table: Seq<char>, key: Seq<char>) -> Option<i64> {
    if toml_has_key(doc, table) && toml_has_key(toml_entry(doc, table), key) {
        toml_int_payload(toml_entry(toml_entry(doc, table), key))
    } else {
        None
    }
}

/// The boolean payload of `table`'s entry under `key`, if both exist.
pub open spec fn spec_doc_bool(doc: toml::Value, table: Seq<char>, key: Seq<char>) -> Option<
    bool,
> {
    if toml_has_key(doc, table) && toml_has_key(toml_entry(doc, table), key) {
        toml_bool_payload(toml_entry(toml_entry(doc, table), key))
    } else {
        None
    }
}

/// The seconds-float payload of `table`'s entry under `key` in milliseconds,
/// if both exist.
pub open spec fn spec_doc_millis(doc: toml::Value, table: Seq<char>, key: Seq<char>) -> Option<
    u64,
> {
    if toml_has_key(doc, table) && toml_has_key(toml_entry(doc, table), key) {
        toml_millis_payload(toml_entry(toml_entry(doc, table), key))
    } else {
        None
    }
}

/// A binding entry of the bindings table: present keys count even with a
/// non-string value, which reads as the empty shortcut.
pub open spec fn spec_binding_entry(tbl: toml::Value, key: Seq<char>) -> Option<Seq<char>> {
    if toml_has_key(tbl, key) {
        match toml_str_payload(toml_entry(tbl, key)) {
            Some(t) => Some(t),
            None => Some(Seq::<char>::empty()),
        }
    } else {
        None
    }
}

/// The raw record `doc` determines: each recognised field of `raw` holds
/// exactly the corresponding entry of the document, `None` where the
/// document lacks it or gives it the wrong shape.
pub open spec fn raw_matches_doc(raw: RawConfig, doc: toml::Value) -> bool {
    &&& opt_str_view(raw.theme.background) == spec_doc_str(doc, "theme"@, "background"@)
    &&& opt_str_view(raw.theme.foreground) == spec_doc_str(doc, "theme"@, "foreground"@)
    &&& opt_str_view(raw.theme.font_family) == spec_doc_str(doc, "theme"@, "font_family"@)
    &&& raw.theme.font_size == spec_doc_int(doc, "theme"@, "font_size"@)
    &&& opt_str_view(raw.theme.selection_color) == spec_doc_str(doc, "theme"@, "selection_color"@)
    &&& raw.theme.cursor_flash == spec_doc_bool(doc, "theme"@, "cursor_flash"@)
    &&& raw.theme.cursor_flash_interval_ms == spec_doc_millis(
        doc,
        "theme"@,
        "cursor_flash_interval"@,
    )
    &&& opt_str_view(raw.theme.negative_color) == spec_doc_str(doc, "theme"@, "negative_color"@)
    &&& opt_str_view(raw.theme.cursor_style) == spec_doc_str(doc, "theme"@, "cursor_style"@)
    &&& opt_str_view(raw.theme.scrollbar_style) == spec_doc_str(doc, "theme"@, "scrollbar_style"@)
    &&& raw.scroll_multiplier == spec_doc_int(doc, "editor"@, "scroll_multiplier"@)
    &&& (raw.bindings is Some <==> toml_has_key(doc, "bindings"@))
    &&& raw.bindings matches Some(rb) ==> {
        let tbl = toml_entry(doc, "bindings"@);
        &&& opt_str_view(rb.save) == spec_binding_entry(tbl, "save"@)
        &&& opt_str_view(rb.quit) == spec_binding_entry(tbl, "quit"@)
        &&& opt_str_view(rb.reload) == spec_binding_entry(tbl, "reload"@)
        &&& opt_str_view(rb.move_line_up) == spec_binding_entry(tbl, "move_line_up"@)
        &&& opt_str_view(rb.move_line_down) == spec_binding_entry(tbl, "move_line_down"@)
    }
}

/// What loading settings text yields: for well-formed TOML, the resolution
/// of the raw record the document determines; for anything else, the
/// resolution of the empty record — the compiled-in defaults.
pub open spec fn spec_loads(s: Seq<char>, c: Config) -> bool {
    if toml_doc_ok(s) {
        exists|raw: RawConfig|
            #[trigger] raw_matches_doc(raw, toml_doc(s)) && spec_resolves(raw, c)
    } else {
        spec_resolves(spec_empty_raw(), c)
    }
}

/// A string field of a table, or `None` when absent or not a string.
fn get_str_field(table: Option<&toml::Value>, key: &str) -> (r: Option<String>)
    ensures
        opt_str_view(r) == (match table {
            Some(t) => if toml_has_key(*t, key@) {
                toml_str_payload(toml_entry(*t, key@))
            } else {
                None
            },
            None => None,
        }),
{
    match table {
        Some(t) => match toml_get(t, key) {
            Some(v) => toml_as_str(v),
            None => None,
        },
        None => None,
    }
}

/// An integer field of a table.
fn get_int_field(table: Option<&toml::Value>, key: &str) -> (r: Option<i64>)
    ensures
        r == (match table {
            Some(t) => if toml_has_key(*t, key@) {
                toml_int_payload(toml_entry(*t, key@))
            } else {
                None
            },
            None => None,
        }),
{
    match table {
        Some(t) => match toml_get(t, key) {
            Some(v) => toml_as_integer(v),
            None => None,
        },
        None => None,
    }
}

/// A boolean field of a table.
fn get_bool_field(table: Option<&toml::Value>, key: &str) -> (r: Option<bool>)
    ensures
        r == (match table {
            Some(t) => if toml_has_key(*t, key@) {
                toml_bool_payload(toml_entry(*t, key@))
            } else {
                None
            },
            None => None,
        }),
{
    match table {
        Some(t) => match toml_get(t, key) {
            Some(v) => toml_as_bool(v),
            None => None,
        },
        None => None,
    }
}

/// A float field of a table, read as seconds and returned in milliseconds.
fn get_secs_field_ms(table: Option<&toml::Value>, key: &str) -> (r: Option<u64>)
    ensures
        r == (match table {
            Some(t) => if toml_has_key(*t, key@) {
                toml_millis_payload(toml_entry(*t, key@))
            } else {
                None
            },
            None => None,
        }),
{
    match table {
        Some(t) => match toml_get(t, key) {
            Some(v) => toml_as_secs_to_millis(v),
            None => None,
        },
        None => None,
    }
}

/// A binding entry: present keys count even with a non-string value, which
/// reads as the empty shortcut, so a malformed entry masks the action rather
/// than silently restoring a default shortcut.
fn get_binding_field(table: &toml::Value, key: &str) -> (r: Option<String>)
    ensures
        opt_str_view(r) == spec_binding_entry(*table, key@),
{
    match toml_get(table, key) {
        Some(v) => match toml_as_str(v) {
            Some(s) => Some(s),
            None => Some(String::new()),
        },
        None => None,
    }
}

/// Reduce a parsed settings value to the raw field record it determines.
fn extract_raw(v: &toml::Value) -> (raw: RawConfig)
    ensures
        raw_matches_doc(raw, *v),
{
    let bindings = match toml_get(v, "bindings") {
        Some(tbl) => Some(
            RawBindings {
                save: get_binding_field(tbl, "save"),
                quit: get_binding_field(tbl, "quit"),
                reload: get_binding_field(tbl, "reload"),
                move_line_up: get_binding_field(tbl, "move_line_up"),
                move_line_down: get_binding_field(tbl, "move_line_down"),
            },
        ),
        None => None,
    };
    let theme = toml_get(v, "theme");
    let editor = toml_get(v, "editor");
    RawConfig {
        bindings,
        theme: RawTheme {
            background: get_str_field(theme, "background"),
            foreground: get_str_field(theme, "foreground"),
            font_family: get_str_field(theme, "font_family"),
            font_size: get_int_field(theme, "font_size"),
            selection_color: get_str_field(theme, "selection_color"),
            cursor_flash: get_bool_field(theme, "cursor_flash"),
            cursor_flash_interval_ms: get_secs_field_ms(theme, "cursor_flash_interval"),
            negative_color: get_str_field(theme, "negative_color"),
            cursor_style: get_str_field(theme, "cursor_style"),
            scrollbar_style: get_str_field(theme, "scrollbar_style"),
        },
        scroll_multiplier: get_int_field(editor, "scroll_multiplier"),
    }
}

impl Config {
    /// Load a configuration from settings text: parse it as TOML and resolve
    /// every recognised field, falling back field by field to the defaults.
    /// Text that is not TOML at all gives the default configuration; loading
    /// never fails.  The result is pinned to the text: well-formed TOML
    /// yields the resolution of the raw record the document determines,
    /// anything else the resolution of the empty record.
    pub fn load_from_str(text: &str) -> (c: Config)
        ensures
            spec_loads(text@, c),
    {
        match toml_parse(text) {
            Some(v) => {
                let raw = extract_raw(&v);
                let ghost raw_g = raw;
                let c = Config::from_raw(raw);
                proof {
                    assert(raw_matches_doc(raw_g, toml_doc(text@)) && spec_resolves(raw_g, c));
                }
                c
            },
            None => Config::from_raw(RawConfig::empty()),
        }
    }
}



} // verus!
