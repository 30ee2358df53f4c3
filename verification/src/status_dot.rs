//! Status dot: the small indicator that marks the file's state.
//!
//! The dot's geometry follows the font size — it sits half a character in
//! from the corner with a quarter-character radius — and its colour and
//! visibility follow its state: hidden, negative (file missing, theme
//! colour), or positive (saved, green).  Drawing the circle itself is the
//! host's job; this model holds everything the drawing reads.
use vstd::prelude::*;

use crate::config::Theme;
use crate::hexcolor::spec_color_from_str;

verus! {

/// What the dot currently indicates.
#[derive(Clone, Copy, PartialEq, Eq, Debug, Structural)]
pub enum StatusDotState {
    Hidden,
    Negative,
    Positive,
}

/// The colour of the positive (saved) state.
pub const POSITIVE_COLOR: u32 = 0x00ff00;

/// The status dot's caller-visible state.
#[derive(Clone, Copy, PartialEq, Eq, Debug, Structural)]
pub struct Dot {
    /// Left edge, in pixels.
    pub x: i32,
    /// Top edge, in pixels.
    pub y: i32,
    /// Radius, in pixels; the widget is a square of twice this side.
    pub radius: i32,
    /// Fill colour, `0xRRGGBB`.
    pub color: u32,
    /// Whether the dot is shown.
    pub visible: bool,
    /// What the dot indicates.
    pub current_state: StatusDotState,
}

/// The dot's offset from the corner for a font size: half a character plus
/// two pixels; negative sizes count as zero.
pub open spec fn spec_dot_offset(font_size: int) -> int {
    let fs = if font_size >= 0 {
        font_size
    } else {
        0
    };
    fs / 2 + 2
}

/// The dot's radius for a font size: a quarter character.
pub open spec fn spec_dot_radius(font_size: int) -> int {
    let fs = if font_size >= 0 {
        font_size
    } else {
        0
    };
    fs / 4
}

/// The dot after showing `state` at `font_size` with the theme's negative
/// colour value.
pub open spec fn spec_update_dot(dot: Dot, state: StatusDotState, font_size: int, negative: u32) -> Dot {
    let moved = Dot {
        x: spec_dot_offset(font_size) as i32,
        y: spec_dot_offset(font_size) as i32,
        radius: spec_dot_radius(font_size) as i32,
        current_state: state,
        ..dot
    };
    match state {
        StatusDotState::Hidden => Dot { visible: false, ..moved },
        StatusDotState::Negative => Dot { visible: true, color: negative, ..moved },
        StatusDotState::Positive => Dot { visible: true, color: POSITIVE_COLOR, ..moved },
    }
}

impl Dot {
    /// A fresh dot, hidden until a state is shown.
    pub fn new(x: i32, y: i32, radius: i32, color: u32) -> (d: Dot)
        ensures
            d == (Dot { x, y, radius, color, visible: true, current_state: StatusDotState::Hidden }),
    {
        Dot { x, y, radius, color, visible: true, current_state: StatusDotState::Hidden }
    }

    /// Move the dot.
    pub fn set_position(&mut self, x: i32, y: i32)
        ensures
            *final(self) == (Dot { x, y, ..*old(self) }),
    {
        self.x = x;
        self.y = y;
    }

    /// Recolour the dot.
    pub fn set_color(&mut self, color: u32)
        ensures
            *final(self) == (Dot { color, ..*old(self) }),
    {
        self.color = color;
    }

    /// Resize the dot.
    pub fn set_radius(&mut self, radius: i32)
        ensures
            *final(self) == (Dot { radius, ..*old(self) }),
    {
        self.radius = radius;
    }

    /// Show the dot.
    pub fn show(&mut self)
        ensures
            *final(self) == (Dot { visible: true, ..*old(self) }),
    {
        self.visible = true;
    }

    /// Hide the dot.
    pub fn conceal(&mut self)
        ensures
            *final(self) == (Dot { visible: false, ..*old(self) }),
    {
        self.visible = false;
    }
}

/// Show `state` on the dot: place and size it for the font, then hide it or
/// colour it for the state.
pub fn update_status_dot(dot: &mut Dot, state: StatusDotState, font_size: i32, theme: &Theme)
    ensures
        *final(dot) == spec_update_dot(
            *old(dot),
            state,
            font_size as int,
            (spec_color_from_str(theme.negative_color@) as u32),
        ),
{
    let fs = if font_size >= 0 {
        font_size
    } else {
        0
    };
    let offset = fs / 2 + 2;
    let radius = fs / 4;
    self_update(dot, state, offset, radius, theme)
}

/// The state-dependent half of `update_status_dot`.
fn self_update(dot: &mut Dot, state: StatusDotState, offset: i32, radius: i32, theme: &Theme)
    requires
        offset >= 0,
        radius >= 0,
    ensures
        *final(dot) == ({
            let moved = Dot {
                x: offset,
                y: offset,
                radius,
                current_state: state,
                ..*old(dot)
            };
            match state {
                StatusDotState::Hidden => Dot { visible: false, ..moved },
                StatusDotState::Negative => Dot {
                    visible: true,
                    color: (spec_color_from_str(theme.negative_color@) as u32),
                    ..moved
                },
                StatusDotState::Positive => Dot { visible: true, color: POSITIVE_COLOR, ..moved },
            }
        }),
{
    dot.set_position(offset, offset);
    dot.set_radius(radius);
    dot.current_state = state;
    match state {
        StatusDotState::Hidden => {
            dot.conceal();
        },
        StatusDotState::Negative => {
            let c = theme.color_from_str(theme.negative_color.as_str());
            dot.set_color(c);
            dot.show();
        },
        StatusDotState::Positive => {
            dot.set_color(POSITIVE_COLOR);
            dot.show();
        },
    }
}

/// Show `state` on the dot and hand back the state it showed before, so the
/// host can restore it when its revert timer fires.
pub fn show_status_dot_timed(dot: &mut Dot, state: StatusDotState, font_size: i32, theme: &Theme) -> (prev: StatusDotState)
    ensures
        prev == old(dot).current_state,
        *final(dot) == spec_update_dot(
            *old(dot),
            state,
            font_size as int,
            (spec_color_from_str(theme.negative_color@) as u32),
        ),
{
    let prev = dot.current_state;
    update_status_dot(dot, state, font_size, theme);
    prev
}

/// Re-apply the dot's current state with a (possibly new) theme, as a reload
/// does.
pub fn refresh_status_dot(dot: &mut Dot, theme: &Theme)
    ensures
        *final(dot) == spec_update_dot(
            *old(dot),
            old(dot).current_state,
            theme.font_size as int,
            (spec_color_from_str(theme.negative_color@) as u32),
        ),
{
    let state = dot.current_state;
    update_status_dot(dot, state, theme.font_size, theme)
}

} // verus!
