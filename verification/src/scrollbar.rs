//! Scrollbar model: a value within a range, thumb geometry, and the
//! pointer-drag state machine.
//!
//! The struct holds only plain state; the host widget draws from it and
//! feeds pointer events into `on_push` / `on_drag` / `on_release`.  A drag
//! that changes the discretised value reports the new value exactly once, so
//! the host can invoke its change listener; programmatic `set_value` never
//! reports.
use vstd::prelude::*;

use crate::clamp_i32;

verus! {

/// Visual style of the thumb.
#[derive(Clone, Copy, PartialEq, Eq, Debug, Structural)]
pub enum ScrollBarStyle {
    Boxy,
    Rounded,
}

/// Upper bound on track dimensions in pixels; keeps the geometry arithmetic
/// far away from any overflow.
pub const MAX_TRACK_DIM: i32 = 100_000;

/// Minimal thumb height in pixels.
pub const MIN_THUMB_H: i32 = 20;

/// The scrollbar's entire caller-visible state.
#[derive(Clone, Copy, PartialEq, Eq, Debug, Structural)]
pub struct ScrollBar {
    /// Lower bound of the range.
    pub min: i32,
    /// Upper bound of the range; never below `min`.
    pub max: i32,
    /// Current value; always within `[min, max]`.
    pub value: i32,
    /// Track background colour, `0xRRGGBB`.
    pub bg_color: u32,
    /// Thumb colour, `0xRRGGBB`.
    pub thumb_color: u32,
    /// Thumb style.
    pub style: ScrollBarStyle,
    /// Track width in pixels, in `[0, MAX_TRACK_DIM]`.
    pub track_w: i32,
    /// Track height in pixels, in `[0, MAX_TRACK_DIM]`.
    pub track_h: i32,
    /// Whether the widget is shown.
    pub visible: bool,
    /// Drag state: `true` between a press inside the thumb and the release.
    pub dragging: bool,
    /// While dragging: pointer offset from the thumb's top edge.
    pub drag_offset: i32,
}

/// Invariant: the stored value lies within the range and the track
/// dimensions are sane.
pub open spec fn scrollbar_wf(sb: ScrollBar) -> bool {
    &&& sb.min <= sb.value <= sb.max
    &&& 0 <= sb.track_w <= MAX_TRACK_DIM
    &&& 0 <= sb.track_h <= MAX_TRACK_DIM
}

/// Thumb height for a track of height `h`: a fifth of the track, but never
/// below the fixed minimum.
pub open spec fn spec_thumb_h(h: int) -> int {
    if h / 5 > MIN_THUMB_H {
        h / 5
    } else {
        MIN_THUMB_H as int
    }
}

/// Vertical travel available to the thumb's top edge, floored at 0 for
/// degenerate tracks shorter than the thumb.
pub open spec fn spec_track_span(h: int) -> int {
    if h - spec_thumb_h(h) >= 0 {
        h - spec_thumb_h(h)
    } else {
        0
    }
}

/// Width of the value range, floored to 1 to avoid a zero divisor.
pub open spec fn spec_range(sb: ScrollBar) -> int {
    if sb.max - sb.min >= 1 {
        sb.max - sb.min
    } else {
        1
    }
}

/// The thumb's top edge offset within the track: the travel scaled by the
/// value's position inside the range.
pub open spec fn spec_thumb_y(sb: ScrollBar) -> int {
    let span = spec_track_span(sb.track_h as int);
    if span == 0 {
        0
    } else {
        span * (sb.value - sb.min) / spec_range(sb)
    }
}

/// `a / b` rounded to the nearest integer, halves away from zero, for
/// `a >= 0`, `b >= 1`.
pub open spec fn spec_round_div(a: int, b: int) -> int {
    (2 * a + b) / (2 * b)
}

/// The value a drag to pointer height `my` discretises to: the inverse of
/// the thumb-offset formula, rounded to the nearest integer and clamped into
/// the range.
pub open spec fn spec_drag_value(sb: ScrollBar, my: int) -> int {
    let span = spec_track_span(sb.track_h as int);
    let nty = if my - sb.drag_offset < 0 {
        0
    } else if my - sb.drag_offset > span {
        span
    } else {
        my - sb.drag_offset
    };
    let raw = if span == 0 {
        0
    } else {
        spec_round_div(nty * spec_range(sb), span)
    };
    let v = sb.min + raw;
    if v > sb.max {
        sb.max as int
    } else {
        v
    }
}

/// One pointer-move step of the drag state machine: outside a drag nothing
/// happens; within one, the discretised value is stored, and reported
/// exactly when it differs from the stored value.
pub open spec fn spec_on_drag(sb: ScrollBar, my: int) -> (ScrollBar, Option<i32>) {
    if !sb.dragging {
        (sb, None::<i32>)
    } else {
        let v = spec_drag_value(sb, my);
        if v != sb.value {
            (ScrollBar { value: v as i32, ..sb }, Some(v as i32))
        } else {
            (sb, None::<i32>)
        }
    }
}

/// `set_range`: store the bounds (the upper one floored to the lower) and
/// re-clamp the value into the new range.
pub open spec fn spec_set_range(sb: ScrollBar, min: i32, max: i32) -> ScrollBar {
    let nmax = if max >= min {
        max
    } else {
        min
    };
    let nvalue = if sb.value < min {
        min
    } else if sb.value > nmax {
        nmax
    } else {
        sb.value
    };
    ScrollBar { min, max: nmax, value: nvalue, ..sb }
}

/// `set_value`: clamp into the current range.
pub open spec fn spec_set_value(sb: ScrollBar, v: i32) -> ScrollBar {
    let nvalue = if v < sb.min {
        sb.min
    } else if v > sb.max {
        sb.max
    } else {
        v
    };
    ScrollBar { value: nvalue, ..sb }
}

impl ScrollBar {
    /// A fresh scrollbar over `[0, 100]` with the default colours, as the
    /// widget constructor makes it.
    pub fn new(w: i32, h: i32) -> (sb: ScrollBar)
        ensures
            scrollbar_wf(sb),
            sb.min == 0 && sb.max == 100 && sb.value == 0,
            sb.bg_color == 0x222222u32 && sb.thumb_color == 0x888888u32,
            sb.style == ScrollBarStyle::Boxy,
            sb.track_w == crate::spec_clamp_i32(w, 0, MAX_TRACK_DIM),
            sb.track_h == crate::spec_clamp_i32(h, 0, MAX_TRACK_DIM),
            !sb.dragging && sb.drag_offset == 0 && sb.visible,
    {
        ScrollBar {
            min: 0,
            max: 100,
            value: 0,
            bg_color: 0x222222,
            thumb_color: 0x888888,
            style: ScrollBarStyle::Boxy,
            track_w: clamp_i32(w, 0, MAX_TRACK_DIM),
            track_h: clamp_i32(h, 0, MAX_TRACK_DIM),
            visible: true,
            dragging: false,
            drag_offset: 0,
        }
    }

    /// Set the track and thumb colours; nothing else changes.
    pub fn set_colors(&mut self, bg: u32, thumb: u32)
        ensures
            *final(self) == (ScrollBar { bg_color: bg, thumb_color: thumb, ..*old(self) }),
    {
        self.bg_color = bg;
        self.thumb_color = thumb;
    }

    /// Set the thumb style; nothing else changes.
    pub fn set_style(&mut self, style: ScrollBarStyle)
        ensures
            *final(self) == (ScrollBar { style, ..*old(self) }),
    {
        self.style = style;
    }

    /// Resize the track; dimensions are clamped into `[0, MAX_TRACK_DIM]`.
    pub fn set_size(&mut self, w: i32, h: i32)
        ensures
            *final(self) == (ScrollBar {
                track_w: crate::spec_clamp_i32(w, 0, MAX_TRACK_DIM),
                track_h: crate::spec_clamp_i32(h, 0, MAX_TRACK_DIM),
                ..*old(self)
            }),
    {
        self.track_w = clamp_i32(w, 0, MAX_TRACK_DIM);
        self.track_h = clamp_i32(h, 0, MAX_TRACK_DIM);
    }

    /// Replace the range and re-clamp the value into it.
    pub fn set_range(&mut self, min: i32, max: i32)
        ensures
            *final(self) == spec_set_range(*old(self), min, max),
            final(self).min <= final(self).value <= final(self).max,
    {
        self.min = min;
        self.max = if max >= min {
            max
        } else {
            min
        };
        self.value = clamp_i32(self.value, self.min, self.max);
    }

    /// Store a value, clamped into the range.  Does not report a change: the
    /// change listener is reserved for user-driven drags.
    pub fn set_value(&mut self, v: i32)
        requires
            old(self).min <= old(self).max,
        ensures
            *final(self) == spec_set_value(*old(self), v),
            final(self).min <= final(self).value <= final(self).max,
    {
        self.value = clamp_i32(v, self.min, self.max);
    }

    /// Show the widget.
    pub fn show(&mut self)
        ensures
            *final(self) == (ScrollBar { visible: true, ..*old(self) }),
    {
        self.visible = true;
    }

    /// Hide the widget.
    pub fn conceal(&mut self)
        ensures
            *final(self) == (ScrollBar { visible: false, ..*old(self) }),
    {
        self.visible = false;
    }

    /// The thumb's current top offset within the track; used for drawing and
    /// for the press hit test.
    pub fn thumb_y(&self) -> (y: i32)
        requires
            scrollbar_wf(*self),
        ensures
            y == spec_thumb_y(*self),
            0 <= y <= spec_track_span(self.track_h as int),
    {
        let h = self.track_h as u64;
        let fifth = h / 5;
        let thumb_h: u64 = if fifth > MIN_THUMB_H as u64 {
            fifth
        } else {
            MIN_THUMB_H as u64
        };
        let span: u64 = if h >= thumb_h {
            h - thumb_h
        } else {
            0
        };
        if span == 0 {
            0
        } else {
            let diff = (self.value as i64 - self.min as i64) as u64;
            let range: u64 = if self.max as i64 - self.min as i64 >= 1 {
                (self.max as i64 - self.min as i64) as u64
            } else {
                1
            };
            proof {
                assert(span * diff <= span * range) by (nonlinear_arith)
                    requires
                        diff <= range,
                        span >= 0,
                ;
                assert(span * range <= 100_000 * 0x1_0000_0000i64) by (nonlinear_arith)
                    requires
                        0 <= span <= 100_000,
                        0 <= range <= 0x1_0000_0000i64,
                ;
                assert(span as int * diff as int / range as int <= span as int)
                    by (nonlinear_arith)
                    requires
                        diff <= range,
                        span >= 0,
                        range >= 1,
                ;
            }
            (span * diff / range) as i32
        }
    }

    /// The thumb height the current track implies.
    pub fn thumb_h(&self) -> (r: i32)
        requires
            scrollbar_wf(*self),
        ensures
            r == spec_thumb_h(self.track_h as int),
    {
        let fifth = (self.track_h as u64 / 5) as i32;
        if fifth > MIN_THUMB_H {
            fifth
        } else {
            MIN_THUMB_H
        }
    }

    /// Pointer press at `(mx, my)`, relative to the widget.  A press inside
    /// the thumb starts a drag and is consumed; any other press is left to
    /// the host.
    pub fn on_push(&mut self, mx: i32, my: i32) -> (consumed: bool)
        requires
            scrollbar_wf(*old(self)),
        ensures
            scrollbar_wf(*final(self)),
            consumed == spec_push_hit(*old(self), mx as int, my as int),
            consumed ==> *final(self) == (ScrollBar {
                dragging: true,
                drag_offset: (my - spec_thumb_y(*old(self))) as i32,
                ..*old(self)
            }),
            !consumed ==> *final(self) == *old(self),
    {
        let ty = self.thumb_y();
        let th = self.thumb_h();
        if mx >= 0 && mx < self.track_w && my >= ty && my < ty + th {
            self.dragging = true;
            self.drag_offset = my - ty;
            true
        } else {
            false
        }
    }

    /// Pointer move at height `my` during a drag.  Returns the new value
    /// exactly when the discretised value changed, so the host fires its
    /// change listener once per actual change; returns `None` otherwise.
    pub fn on_drag(&mut self, my: i32) -> (r: Option<i32>)
        requires
            scrollbar_wf(*old(self)),
        ensures
            scrollbar_wf(*final(self)),
            *final(self) == spec_on_drag(*old(self), my as int).0,
            r == spec_on_drag(*old(self), my as int).1,
    {
        if !self.dragging {
            return None;
        }
        let h = self.track_h as u64;
        let fifth = h / 5;
        let thumb_h: u64 = if fifth > MIN_THUMB_H as u64 {
            fifth
        } else {
            MIN_THUMB_H as u64
        };
        let span: u64 = if h >= thumb_h {
            h - thumb_h
        } else {
            0
        };
        let raw_nty = my as i64 - self.drag_offset as i64;
        let nty: u64 = if raw_nty < 0 {
            0
        } else if raw_nty > span as i64 {
            span
        } else {
            raw_nty as u64
        };
        let range: u64 = if self.max as i64 - self.min as i64 >= 1 {
            (self.max as i64 - self.min as i64) as u64
        } else {
            1
        };
        let raw: u64 = if span == 0 {
            0
        } else {
            proof {
                assert(nty * range <= 100_000 * 0x1_0000_0000u64) by (nonlinear_arith)
                    requires
                        0 <= nty <= 100_000u64,
                        0 <= range <= 0x1_0000_0000u64,
                ;
            }
            (2 * (nty * range) + span) / (2 * span)
        };
        proof {
            if span != 0 {
                assert((2 * (nty * range) + span) / (2 * span) <= range) by (nonlinear_arith)
                    requires
                        0 <= nty <= span,
                        span >= 1,
                        range >= 0,
                ;
            }
        }
        let v_wide = self.min as i64 + raw as i64;
        let v: i32 = if v_wide > self.max as i64 {
            self.max
        } else {
            v_wide as i32
        };
        if v != self.value {
            self.value = v;
            Some(v)
        } else {
            None
        }
    }

    /// Pointer release: end any drag.  Idempotent; never consumed, matching
    /// the host's event protocol.
    pub fn on_release(&mut self) -> (consumed: bool)
        ensures
            *final(self) == (ScrollBar { dragging: false, ..*old(self) }),
            !consumed,
    {
        self.dragging = false;
        false
    }
}

/// Whether a press at `(mx, my)` lands inside the thumb.
pub open spec fn spec_push_hit(sb: ScrollBar, mx: int, my: int) -> bool {
    let ty = spec_thumb_y(sb);
    &&& 0 <= mx < sb.track_w
    &&& ty <= my < ty + spec_thumb_h(sb.track_h as int)
}

/// The stored value stays within `[min, max]` across any sequence of
/// `set_range` / `set_value` calls: both transitions establish the invariant
/// unconditionally, so a fold of any such sequence over any start ends (and
/// passes through) only states whose value is in range.
pub open spec fn spec_apply_range_ops(sb: ScrollBar, ops: Seq<RangeOp>) -> ScrollBar
    decreases ops.len(),
{
    if ops.len() == 0 {
        sb
    } else {
        let rest = spec_apply_range_ops(sb, ops.drop_last());
        match ops.last() {
            RangeOp::SetRange { min, max } => spec_set_range(rest, min, max),
            RangeOp::SetValue { v } => spec_set_value(rest, v),
        }
    }
}

/// A `set_range` or `set_value` call, as data.
#[derive(Clone, Copy, PartialEq, Eq, Debug, Structural)]
pub enum RangeOp {
    SetRange { min: i32, max: i32 },
    SetValue { v: i32 },
}

/// Starting from any state whose value is in range (the constructor gives
/// one), every sequence of `set_range` / `set_value` calls ends — and hence
/// passes through — only states whose value is within `[min, max]`.
pub proof fn lemma_range_ops_keep_value_in_range(sb: ScrollBar, ops: Seq<RangeOp>)
    requires
        sb.min <= sb.value <= sb.max,
    ensures
        ({
            let end = spec_apply_range_ops(sb, ops);
            end.min <= end.value <= end.max
        }),
    decreases ops.len(),
{
    if ops.len() >= 1 {
        lemma_range_ops_keep_value_in_range(sb, ops.drop_last());
    }
}

/// A drag reports a change at most once for one discretised target value:
/// if a move to `my1` reports `Some(v)`, a further move to any `my2` that
/// discretises to the same value reports nothing, because reporting is tied
/// to the stored value actually changing.
pub proof fn lemma_drag_reports_once(sb: ScrollBar, my1: int, my2: int)
    requires
        sb.dragging,
        spec_drag_value(sb, my1) == spec_drag_value(sb, my2),
    ensures
        ({
            let (sb1, r1) = spec_on_drag(sb, my1);
            let (sb2, r2) = spec_on_drag(sb1, my2);
            &&& r2 is None
            &&& sb2 == sb1
        }),
{
    let (sb1, r1) = spec_on_drag(sb, my1);
    assert(spec_drag_value(sb1, my2) == spec_drag_value(sb, my2));
}

} // verus!
