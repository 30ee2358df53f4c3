//! The configuration applier: one atomic re-apply of the settings.
//!
//! On start-up, on an explicit reload, and on every coalesced pipeline
//! reload, `apply_config` pushes the theme into the display state and the
//! scrollbar first and re-arms the caret controller last, so a reload never
//! leaves the caret running against half-applied theme state.  The caller
//! sees one consistent final state; the display colours are the parsed
//! values of the theme's colour strings.
use vstd::prelude::*;

use crate::caret::caret_wf;
use crate::caret::spec_sat_add;
use crate::caret::BlinkState;
use crate::caret::CaretBlinkController;
use crate::caret::TimerQueue;
use crate::config::Config;
use crate::config::Cursor;
use crate::hexcolor::spec_color_from_str;
use crate::scrollbar::scrollbar_wf;
use crate::scrollbar::ScrollBar;

verus! {

/// The display-facing theme values, with colours already parsed.
#[derive(Debug, Clone)]
pub struct DisplayState {
    /// Window and editor background colour.
    pub background: u32,
    /// Text and caret colour.
    pub foreground: u32,
    /// Selection colour.
    pub selection: u32,
    /// Font family name, resolved by the host.
    pub font_family: String,
    /// Font size in points.
    pub font_size: i32,
    /// Caret rendering style.
    pub cursor_style: Cursor,
}

impl DisplayState {
    /// A display state before any apply: black on white in the default font.
    pub fn new() -> (d: DisplayState)
        ensures
            d.background == 0,
            d.foreground == 0xffffffu32,
            d.selection == 0xffffffu32,
            d.font_family@ == Seq::<char>::empty(),
            d.font_size == 0,
            d.cursor_style == Cursor::Simple,
    {
        DisplayState {
            background: 0,
            foreground: 0xffffff,
            selection: 0xffffff,
            font_family: String::new(),
            font_size: 0,
            cursor_style: Cursor::Simple,
        }
    }
}

/// Apply a loaded configuration, in order: display values, then scrollbar
/// colours and style, then the caret controller per its disable/reconfigure
/// transitions.  The final state is consistent as a whole: every display
/// value, the scrollbar's colours and style, and the caret's arming all
/// reflect `cfg` — and with flashing disabled the caret is forced visible
/// with no timer scheduled, while with flashing enabled exactly one timer is
/// scheduled one interval from `now_ms`.
pub fn apply_config(
    cfg: &Config,
    display: &mut DisplayState,
    sb: &mut ScrollBar,
    caret: &mut CaretBlinkController,
    q: &mut TimerQueue,
    now_ms: u64,
)
    requires
        scrollbar_wf(*old(sb)),
        caret_wf(*old(caret), *old(q)),
        old(q).next_id < u64::MAX,
    ensures
        final(display).background as int == spec_color_from_str(cfg.theme.background@),
        final(display).foreground as int == spec_color_from_str(cfg.theme.foreground@),
        final(display).selection as int == spec_color_from_str(cfg.theme.selection_color@),
        final(display).font_family@ == cfg.theme.font_family@,
        final(display).font_size == cfg.theme.font_size,
        final(display).cursor_style == cfg.theme.cursor_style,
        scrollbar_wf(*final(sb)),
        *final(sb) == (ScrollBar {
            bg_color: final(display).background,
            thumb_color: final(display).foreground,
            style: cfg.theme.scrollbar_style,
            ..*old(sb)
        }),
        caret_wf(*final(caret), *final(q)),
        final(caret).flashing == cfg.theme.cursor_flash,
        final(caret).interval_ms == cfg.theme.cursor_flash_interval_ms,
        final(caret).state == (BlinkState::Active { visible: true }),
        cfg.theme.cursor_flash ==> {
            &&& final(q).entries@.len() == 1
            &&& final(q).entries@[0].due_ms == spec_sat_add(now_ms, cfg.theme.cursor_flash_interval_ms)
        },
        !cfg.theme.cursor_flash ==> final(q).entries@.len() == 0 && final(caret).handle is None,
        old(q).next_id <= final(q).next_id <= old(q).next_id + 1,
{
    let background = cfg.theme.color_from_str(cfg.theme.background.as_str());
    let foreground = cfg.theme.color_from_str(cfg.theme.foreground.as_str());
    let selection = cfg.theme.color_from_str(cfg.theme.selection_color.as_str());
    display.background = background;
    display.foreground = foreground;
    display.selection = selection;
    display.font_family = cfg.theme.font_family.clone();
    display.font_size = cfg.theme.font_size;
    display.cursor_style = cfg.theme.cursor_style;
    sb.set_colors(background, foreground);
    sb.set_style(cfg.theme.scrollbar_style);
    caret.configure(cfg.theme.cursor_flash, cfg.theme.cursor_flash_interval_ms, now_ms, q);
}

/// Load the settings text and apply the result in one step, handing the
/// loaded configuration back for the host's shortcut table.  Loading never
/// fails; unparseable text applies the defaults, and well-formed TOML
/// applies the per-field resolution of the document.
pub fn load_and_apply(
    text: &str,
    display: &mut DisplayState,
    sb: &mut ScrollBar,
    caret: &mut CaretBlinkController,
    q: &mut TimerQueue,
    now_ms: u64,
) -> (cfg: Config)
    requires
        scrollbar_wf(*old(sb)),
        caret_wf(*old(caret), *old(q)),
        old(q).next_id < u64::MAX,
    ensures
        crate::settings_toml::spec_loads(text@, cfg),
        final(display).background as int == spec_color_from_str(cfg.theme.background@),
        final(display).foreground as int == spec_color_from_str(cfg.theme.foreground@),
        final(display).selection as int == spec_color_from_str(cfg.theme.selection_color@),
        final(display).font_family@ == cfg.theme.font_family@,
        final(display).font_size == cfg.theme.font_size,
        final(display).cursor_style == cfg.theme.cursor_style,
        scrollbar_wf(*final(sb)),
        *final(sb) == (ScrollBar {
            bg_color: final(display).background,
            thumb_color: final(display).foreground,
            style: cfg.theme.scrollbar_style,
            ..*old(sb)
        }),
        caret_wf(*final(caret), *final(q)),
        final(caret).flashing == cfg.theme.cursor_flash,
        final(caret).interval_ms == cfg.theme.cursor_flash_interval_ms,
        final(caret).state == (BlinkState::Active { visible: true }),
        cfg.theme.cursor_flash ==> {
            &&& final(q).entries@.len() == 1
            &&& final(q).entries@[0].due_ms == spec_sat_add(now_ms, cfg.theme.cursor_flash_interval_ms)
        },
        !cfg.theme.cursor_flash ==> final(q).entries@.len() == 0 && final(caret).handle is None,
        old(q).next_id <= final(q).next_id <= old(q).next_id + 1,
{
    let cfg = Config::load_from_str(text);
    apply_config(&cfg, display, sb, caret, q, now_ms);
    cfg
}

} // verus!
