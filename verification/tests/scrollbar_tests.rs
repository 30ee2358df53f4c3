use skrift::scrollbar::ScrollBar;
use skrift::scrollbar::ScrollBarStyle;

#[test]
fn new_has_default_range_and_colors() {
    let sb = ScrollBar::new(12, 540);
    assert_eq!(sb.min, 0);
    assert_eq!(sb.max, 100);
    assert_eq!(sb.value, 0);
    assert_eq!(sb.bg_color, 0x222222);
    assert_eq!(sb.thumb_color, 0x888888);
    assert_eq!(sb.style, ScrollBarStyle::Boxy);
    assert!(!sb.dragging);
}

#[test]
fn value_stays_in_range_over_any_call_sequence() {
    let mut sb = ScrollBar::new(12, 540);
    let check = |sb: &ScrollBar| assert!(sb.min <= sb.value && sb.value <= sb.max);
    sb.set_value(150);
    check(&sb);
    assert_eq!(sb.value, 100);
    sb.set_range(0, 30);
    check(&sb);
    assert_eq!(sb.value, 30);
    sb.set_value(-7);
    check(&sb);
    assert_eq!(sb.value, 0);
    sb.set_range(5, 3); // inverted range is floored to [5, 5]
    check(&sb);
    assert_eq!(sb.min, 5);
    assert_eq!(sb.max, 5);
    assert_eq!(sb.value, 5);
    sb.set_range(-10, 10);
    check(&sb);
    assert_eq!(sb.value, 5);
}

#[test]
fn thumb_geometry_formula() {
    let mut sb = ScrollBar::new(12, 540);
    // a fifth of 540 is 108, above the 20 pixel minimum
    assert_eq!(sb.thumb_h(), 108);
    sb.set_size(12, 60);
    assert_eq!(sb.thumb_h(), 20);
    sb.set_size(12, 540);
    sb.set_range(0, 30);
    sb.set_value(0);
    assert_eq!(sb.thumb_y(), 0);
    sb.set_value(30);
    // full travel: 540 - 108
    assert_eq!(sb.thumb_y(), 432);
    sb.set_value(15);
    assert_eq!(sb.thumb_y(), 216);
}

#[test]
fn press_inside_thumb_starts_drag() {
    let mut sb = ScrollBar::new(12, 540);
    sb.set_range(0, 30);
    sb.set_value(0);
    assert!(sb.on_push(5, 50));
    assert!(sb.dragging);
    assert_eq!(sb.drag_offset, 50);
}

#[test]
fn press_outside_thumb_is_not_consumed() {
    let mut sb = ScrollBar::new(12, 540);
    sb.set_range(0, 30);
    sb.set_value(0);
    // below the thumb (thumb covers 0..108)
    assert!(!sb.on_push(5, 300));
    assert!(!sb.dragging);
    // outside the track width
    assert!(!sb.on_push(20, 50));
    assert!(!sb.dragging);
}

#[test]
fn drag_reports_each_value_change_once() {
    let mut sb = ScrollBar::new(12, 540);
    sb.set_range(0, 30);
    sb.set_value(0);
    assert!(sb.on_push(5, 50));
    // pointer at 122: thumb top 72 of 432 travel, value 5
    assert_eq!(sb.on_drag(122), Some(5));
    assert_eq!(sb.value, 5);
    // one pixel on: still discretises to 5, no second report
    assert_eq!(sb.on_drag(123), None);
    assert_eq!(sb.value, 5);
    assert_eq!(sb.on_drag(122), None);
    // a real change reports again
    assert_eq!(sb.on_drag(180), Some(9));
    assert!(!sb.on_release());
    assert!(!sb.dragging);
    // released: further moves report nothing
    assert_eq!(sb.on_drag(300), None);
}

#[test]
fn drag_clamps_to_range_ends() {
    let mut sb = ScrollBar::new(12, 540);
    sb.set_range(0, 30);
    sb.set_value(5);
    sb.on_push(5, 72 + 20); // thumb top is 72 at value 5
    assert_eq!(sb.on_drag(-500), Some(0));
    assert_eq!(sb.on_drag(5000), Some(30));
}

#[test]
fn release_is_idempotent() {
    let mut sb = ScrollBar::new(12, 540);
    assert!(!sb.on_release());
    assert!(!sb.on_release());
    assert!(!sb.dragging);
}

#[test]
fn style_and_colors_update() {
    let mut sb = ScrollBar::new(12, 540);
    sb.set_style(ScrollBarStyle::Rounded);
    assert_eq!(sb.style, ScrollBarStyle::Rounded);
    sb.set_colors(0x1e1e1e, 0xc0c0c0);
    assert_eq!(sb.bg_color, 0x1e1e1e);
    assert_eq!(sb.thumb_color, 0xc0c0c0);
    sb.show();
    assert!(sb.visible);
    sb.conceal();
    assert!(!sb.visible);
}
