//! Viewport controller: pure computation of the clamped scroll range.
//!
//! Given the document's line count, the number of lines the widget can show,
//! and a requested top line, `recompute` produces a consistent
//! [`ViewportState`]: `0 <= top_line <= max_top` and
//! `max_top == max(0, total_lines - visible_lines)` (after flooring
//! `visible_lines` to at least 1).
use vstd::prelude::*;

use crate::clamp_i32;
use crate::spec_clamp_i32;

verus! {

/// The viewport after a recomputation.
#[derive(Clone, Copy, Debug, PartialEq, Eq, Structural)]
pub struct ViewportState {
    /// Number of lines in the document (never negative).
    pub total_lines: i32,
    /// Lines the widget can display, floored to at least 1.
    pub visible_lines: i32,
    /// Current top line, clamped into `[0, max_top]`.
    pub top_line: i32,
    /// Largest admissible top line.
    pub max_top: i32,
    /// Whether the host should show the scrollbar for this state.
    pub show_scrollbar: bool,
}

/// Well-formedness of a viewport state: the top line sits within the
/// clamped range, and the scrollbar visibility decision agrees with it.
pub open spec fn viewport_wf(v: ViewportState) -> bool {
    &&& v.total_lines >= 0
    &&& v.visible_lines >= 1
    &&& v.max_top == spec_max_top(v.total_lines as int, v.visible_lines as int)
    &&& 0 <= v.top_line <= v.max_top
    &&& v.show_scrollbar == (v.max_top > 0)
}

/// `max(0, total - visible)` for a visible count already floored to >= 1.
pub open spec fn spec_max_top(total: int, visible: int) -> int {
    if total > visible {
        total - visible
    } else {
        0
    }
}

impl ViewportState {
    /// Recompute the viewport from the document size and a requested top
    /// line.  Total on all inputs the host can produce: `visible_lines` is
    /// floored to 1 and `requested_top` is clamped, so there is no error
    /// case.
    pub fn recompute(total_lines: i32, visible_lines: i32, requested_top: i32) -> (v: ViewportState)
        requires
            total_lines >= 0,
        ensures
            viewport_wf(v),
            v.total_lines == total_lines,
            v.visible_lines == (if visible_lines >= 1 { visible_lines as int } else { 1 }),
            v.max_top == spec_max_top(total_lines as int, v.visible_lines as int),
            v.top_line == spec_clamp_i32(requested_top, 0, v.max_top),
            v.show_scrollbar == (v.max_top > 0),
    {
        let visible = if visible_lines >= 1 {
            visible_lines
        } else {
            1
        };
        let max_top = if total_lines > visible {
            total_lines - visible
        } else {
            0
        };
        let top_line = clamp_i32(requested_top, 0, max_top);
        ViewportState {
            total_lines,
            visible_lines: visible,
            top_line,
            max_top,
            show_scrollbar: max_top > 0,
        }
    }
}

/// How many lines fit into `height_px` pixels at `line_height_px` per line,
/// floored to at least 1; a non-positive line height is floored to 1 first.
pub fn visible_lines_from_pixels(height_px: i32, line_height_px: i32) -> (n: i32)
    ensures
        n >= 1,
        n == spec_visible_lines(height_px as int, line_height_px as int),
{
    let lh = if line_height_px >= 1 {
        line_height_px
    } else {
        1
    };
    if height_px >= 1 {
        let n = height_px / lh;
        if n >= 1 {
            n
        } else {
            1
        }
    } else {
        1
    }
}

/// The value `visible_lines_from_pixels` returns.
pub open spec fn spec_visible_lines(height_px: int, line_height_px: int) -> int {
    let lh = if line_height_px >= 1 {
        line_height_px
    } else {
        1 as int
    };
    if height_px >= 1 {
        let n = height_px / lh;
        if n >= 1 {
            n
        } else {
            1 as int
        }
    } else {
        1 as int
    }
}

/// Pixel height of one text line at the given font size: the font size plus
/// a fixed leading of two fifths.  The size is floored to 1 first, so the
/// result is always at least 1.
pub fn line_height_for(text_size: i32) -> (h: i32)
    requires
        text_size <= i32::MAX / 7,
    ensures
        h == ({
            let ts = if text_size >= 1 {
                text_size as int
            } else {
                1 as int
            };
            ts * 7 / 5
        }),
        h >= 1,
{
    let ts = if text_size >= 1 {
        text_size
    } else {
        1
    };
    ts * 7 / 5
}

/// One wheel step: move the top line by the scroll multiplier (floored to 1)
/// in the given direction and clamp into `[0, max_top]`.  `up` means towards
/// the start of the document.
pub fn wheel_step(top: i32, max_top: i32, up: bool, multiplier: i32) -> (r: i32)
    requires
        0 <= max_top,
    ensures
        r == spec_wheel_step(top as int, max_top as int, up, multiplier as int),
        0 <= r <= max_top,
{
    let m = if multiplier >= 1 {
        multiplier
    } else {
        1
    };
    if up {
        let moved = if top >= i32::MIN + m {
            top - m
        } else {
            i32::MIN
        };
        if moved >= 0 {
            if moved <= max_top {
                moved
            } else {
                max_top
            }
        } else {
            0
        }
    } else {
        let moved = if top <= i32::MAX - m {
            top + m
        } else {
            i32::MAX
        };
        if moved <= max_top {
            if moved >= 0 {
                moved
            } else {
                0
            }
        } else {
            max_top
        }
    }
}

/// The value `wheel_step` returns, over unbounded integers.
pub open spec fn spec_wheel_step(top: int, max_top: int, up: bool, multiplier: int) -> int {
    let m = if multiplier >= 1 {
        multiplier
    } else {
        1 as int
    };
    let moved = if up {
        if top - m >= -0x8000_0000 {
            top - m
        } else {
            -0x8000_0000
        }
    } else {
        if top + m <= 0x7fff_ffff {
            top + m
        } else {
            0x7fff_ffff
        }
    };
    spec_clamp_i32_int(moved, 0, max_top)
}

/// Clamp over unbounded integers.
pub open spec fn spec_clamp_i32_int(v: int, lo: int, hi: int) -> int {
    if v < lo {
        lo
    } else if v > hi {
        hi
    } else {
        v
    }
}

/// After a keystroke the viewport follows the cursor: when the cursor sits on
/// the last document line, jump the top line to `max_top`; otherwise keep it.
pub fn follow_cursor_top(cursor_line: i32, total_lines: i32, top: i32, max_top: i32) -> (r: i32)
    ensures
        r == (if cursor_line >= total_lines - 1 { max_top as int } else { top as int }),
{
    if total_lines >= i32::MIN + 1 && cursor_line >= total_lines - 1 {
        max_top
    } else {
        if total_lines < i32::MIN + 1 {
            // total_lines == i32::MIN: then cursor_line >= total_lines - 1
            // cannot be tested directly without overflow, yet it holds for
            // every i32 cursor_line.
            max_top
        } else {
            top
        }
    }
}

/// Push a recomputed viewport into the scrollbar, as every resize,
/// keystroke, and wheel event does: the range becomes `[0, max_top]` (which
/// re-clamps the stored value) and the bar is shown exactly when there is
/// anything to scroll.
pub fn sync_scrollbar(v: &ViewportState, sb: &mut crate::scrollbar::ScrollBar)
    requires
        viewport_wf(*v),
    ensures
        ({
            let ranged = crate::scrollbar::spec_set_range(*old(sb), 0, v.max_top);
            *final(sb) == (crate::scrollbar::ScrollBar { visible: v.show_scrollbar, ..ranged })
        }),
        final(sb).min == 0 && final(sb).max == v.max_top,
        final(sb).min <= final(sb).value <= final(sb).max,
        final(sb).visible == (v.max_top > 0),
{
    sb.set_range(0, v.max_top);
    if v.show_scrollbar {
        sb.show();
    } else {
        sb.conceal();
    }
}

/// The viewport range law: for every admissible input the
/// recomputed state satisfies `0 <= top_line <= max_top` and
/// `max_top == max(0, total_lines - visible_lines)`.
///
/// For `visible_lines == 0` the second equation does not hold as written,
/// because the controller first floors the visible count to 1; the law is
/// therefore stated for `visible_lines >= 1`.
pub proof fn lemma_recompute_range(total_lines: int, visible_lines: int)
    requires
        total_lines >= 0,
        visible_lines >= 1,
    ensures
        spec_max_top(total_lines, visible_lines) == (if total_lines - visible_lines > 0 {
            total_lines - visible_lines
        } else {
            0
        }),
        spec_max_top(total_lines, visible_lines) >= 0,
{
}

} // verus!
