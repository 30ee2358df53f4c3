use skrift::apply::apply_config;
use skrift::apply::load_and_apply;
use skrift::apply::DisplayState;
use skrift::caret::BlinkState;
use skrift::caret::CaretBlinkController;
use skrift::caret::TimerQueue;
use skrift::config::Config;
use skrift::config::Cursor;
use skrift::config::RawConfig;
use skrift::reload::ReloadPipeline;
use skrift::scrollbar::ScrollBar;
use skrift::scrollbar::ScrollBarStyle;
use skrift::status_dot::update_status_dot;
use skrift::status_dot::refresh_status_dot;
use skrift::status_dot::show_status_dot_timed;
use skrift::status_dot::Dot;
use skrift::status_dot::StatusDotState;
use skrift::textops::caret_pos_after_move;
use skrift::textops::line_col_of_pos;
use skrift::textops::swap_with_next_line;

fn fresh_host() -> (DisplayState, ScrollBar, CaretBlinkController, TimerQueue) {
    (DisplayState::new(), ScrollBar::new(12, 540), CaretBlinkController::new(), TimerQueue::new())
}

#[test]
fn apply_pushes_theme_into_display_and_scrollbar() {
    let (mut display, mut sb, mut caret, mut q) = fresh_host();
    let cfg = Config::default();
    apply_config(&cfg, &mut display, &mut sb, &mut caret, &mut q, 0);
    assert_eq!(display.background, 0x1e1e1e);
    assert_eq!(display.foreground, 0xc0c0c0);
    assert_eq!(display.selection, 0x51a9e8ff);
    assert_eq!(display.font_family, "Courier");
    assert_eq!(display.font_size, 16);
    assert_eq!(display.cursor_style, Cursor::Simple);
    assert_eq!(sb.bg_color, 0x1e1e1e);
    assert_eq!(sb.thumb_color, 0xc0c0c0);
    assert_eq!(sb.style, ScrollBarStyle::Rounded);
}

#[test]
fn apply_with_flashing_disabled_then_enabled() {
    let (mut display, mut sb, mut caret, mut q) = fresh_host();
    let mut raw = RawConfig::empty();
    raw.theme.cursor_flash = Some(false);
    let off = Config::from_raw(raw);
    apply_config(&off, &mut display, &mut sb, &mut caret, &mut q, 0);
    // flashing disabled: caret forced visible, nothing scheduled
    assert!(caret.caret_visible());
    assert_eq!(caret.handle, None);
    assert_eq!(q.live().len(), 0);
    // a later reload enabling flashing schedules exactly one new timer
    let on = Config::default();
    apply_config(&on, &mut display, &mut sb, &mut caret, &mut q, 1000);
    assert!(caret.caret_visible());
    let live = q.live();
    assert_eq!(live.len(), 1);
    assert_eq!(live[0].due_ms, 1500);
    assert_eq!(caret.state, BlinkState::Active { visible: true });
}

#[test]
fn reload_mid_blink_rearms_at_the_new_interval() {
    let (mut display, mut sb, mut caret, mut q) = fresh_host();
    apply_config(&Config::default(), &mut display, &mut sb, &mut caret, &mut q, 0);
    // a tick fires and the caret goes dark
    let t = q.live()[0].clone();
    caret.on_timer(t.id, t.due_ms, &mut q);
    assert!(!caret.caret_visible());
    // a reload in that state leaves the caret visible with one fresh timer
    apply_config(&Config::default(), &mut display, &mut sb, &mut caret, &mut q, 600);
    assert!(caret.caret_visible());
    let live = q.live();
    assert_eq!(live.len(), 1);
    assert_eq!(live[0].due_ms, 1100);
}

#[test]
fn load_and_apply_from_text() {
    let (mut display, mut sb, mut caret, mut q) = fresh_host();
    let text = "\
[theme]
background = \"#000010\"
foreground = \"#aabbcc\"
cursor_flash = false
";
    let cfg = load_and_apply(text, &mut display, &mut sb, &mut caret, &mut q, 0);
    assert_eq!(display.background, 0x000010);
    assert_eq!(display.foreground, 0xaabbcc);
    assert_eq!(sb.bg_color, 0x000010);
    assert!(!cfg.theme.cursor_flash);
    assert_eq!(q.live().len(), 0);
    assert!(caret.caret_visible());
}

#[test]
fn pipeline_coalesces_signals_into_one_reload() {
    let mut p = ReloadPipeline::new();
    assert!(!p.poll());
    p.signal();
    p.signal();
    p.signal();
    assert!(p.poll());
    // drained: the next quiet poll reloads nothing
    assert!(!p.poll());
    p.signal();
    assert!(p.poll());
}

#[test]
fn status_dot_states() {
    let theme = Config::default().theme;
    let mut dot = Dot::new(8, 8, 5, 0x123456);
    update_status_dot(&mut dot, StatusDotState::Negative, 16, &theme);
    assert_eq!(dot.x, 10);
    assert_eq!(dot.y, 10);
    assert_eq!(dot.radius, 4);
    assert_eq!(dot.color, 0xff0000);
    assert!(dot.visible);
    update_status_dot(&mut dot, StatusDotState::Positive, 16, &theme);
    assert_eq!(dot.color, 0x00ff00);
    assert!(dot.visible);
    update_status_dot(&mut dot, StatusDotState::Hidden, 16, &theme);
    assert!(!dot.visible);
}

#[test]
fn timed_dot_returns_previous_state_for_the_revert() {
    let theme = Config::default().theme;
    let mut dot = Dot::new(8, 8, 5, 0x123456);
    update_status_dot(&mut dot, StatusDotState::Negative, 16, &theme);
    let prev = show_status_dot_timed(&mut dot, StatusDotState::Positive, 16, &theme);
    assert_eq!(prev, StatusDotState::Negative);
    assert_eq!(dot.color, 0x00ff00);
    // the host's revert timer restores the previous state
    update_status_dot(&mut dot, prev, 16, &theme);
    assert_eq!(dot.color, 0xff0000);
    assert_eq!(dot.current_state, StatusDotState::Negative);
}

#[test]
fn refresh_reapplies_current_state_with_new_theme() {
    let theme = Config::default().theme;
    let mut dot = Dot::new(8, 8, 5, 0x123456);
    update_status_dot(&mut dot, StatusDotState::Negative, 16, &theme);
    let mut raw = RawConfig::empty();
    raw.theme.negative_color = Some("#00AA00".to_string());
    raw.theme.font_size = Some(32);
    let new_theme = Config::from_raw(raw).theme;
    refresh_status_dot(&mut dot, &new_theme);
    assert_eq!(dot.current_state, StatusDotState::Negative);
    assert_eq!(dot.color, 0x00aa00);
    assert_eq!(dot.x, 18);
    assert_eq!(dot.radius, 8);
}

#[test]
fn line_col_counts_newlines() {
    assert_eq!(line_col_of_pos("ab\ncd", 0), (1, 1));
    assert_eq!(line_col_of_pos("ab\ncd", 2), (1, 3));
    assert_eq!(line_col_of_pos("ab\ncd", 3), (2, 1));
    assert_eq!(line_col_of_pos("ab\ncd", 4), (2, 2));
    // beyond the end counts as the end
    assert_eq!(line_col_of_pos("ab\ncd", 99), (2, 3));
    assert_eq!(line_col_of_pos("", 0), (1, 1));
}

#[test]
fn move_line_swaps_and_replaces_caret() {
    let mut lines: Vec<String> = vec!["alpha".into(), "bb".into(), "c".into()];
    // move the middle line down
    swap_with_next_line(&mut lines, 1);
    assert_eq!(lines, vec!["alpha".to_string(), "c".into(), "bb".into()]);
    // the caret follows its line to index 2, keeping its column where it fits
    assert_eq!(caret_pos_after_move(&lines, 2, 1), 9);
    // a column past the line's end clamps to the line's length
    assert_eq!(caret_pos_after_move(&lines, 1, 4), 7);
    // swapping back restores the original order
    swap_with_next_line(&mut lines, 1);
    assert_eq!(lines, vec!["alpha".to_string(), "bb".into(), "c".into()]);
}
