//! Coordination core of a small desktop text editor.
//!
//! The library models and verifies the runtime layer that keeps three
//! subsystems consistent: the viewport/scrollbar synchronisation that maps a
//! line-based document onto a fixed visible region, the caret-blink state
//! machine that owns at most one live timer, and the settings-reload pipeline
//! that coalesces file-change signals and atomically re-applies the theme.
//! The surrounding GUI (widgets, timers, file watching) drives these models
//! from outside.
use vstd::prelude::*;

pub mod apply;
pub mod caret;
pub mod config;
pub mod hexcolor;
pub mod reload;
pub mod scrollbar;
pub mod settings_toml;
pub mod status_dot;
pub mod shortcut;
pub mod strutil;
pub mod textops;
pub mod viewport;

verus! {

/// `v` clamped into the interval `[lo, hi]`.
pub open spec fn spec_clamp_i32(v: i32, lo: i32, hi: i32) -> i32 {
    if v < lo {
        lo
    } else if v > hi {
        hi
    } else {
        v
    }
}

/// Clamp `v` into `[lo, hi]`.
pub fn clamp_i32(v: i32, lo: i32, hi: i32) -> (r: i32)
    requires
        lo <= hi,
    ensures
        r == spec_clamp_i32(v, lo, hi),
        lo <= r <= hi,
{
    if v < lo {
        lo
    } else if v > hi {
        hi
    } else {
        v
    }
}

} // verus!
