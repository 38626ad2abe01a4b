//! Shared Signal Rail state: the threshold-aware volume track used by the
//! overlay and the mixer, its keyboard semantics, and its fill color.
//!
//! The rail's fill color follows the volume legend: muted (or 0%) uses the
//! muted grey, then the low/medium/high bands with the default limits 40%
//! and 75%. The palette values come from the caller's
//! [`VolumeThresholdColors`]; the rail never carries its own copy.

use vstd::prelude::*;
use crate::ui::theme::{Rgba, VolumeThresholdColors};

verus! {

/// Low band upper bound in percent (inclusive).
pub const LOW_BAND_UP_TO: u8 = 40;

/// Medium band upper bound in percent (inclusive).
pub const MEDIUM_BAND_UP_TO: u8 = 75;

/// Platform-neutral Signal Rail state; `percent` is expected in 0..=100 and
/// every step clamps defensively.
#[derive(Debug, Clone, Copy, PartialEq, Eq, Structural)]
pub struct SignalRail {
    pub percent: u8,
    pub muted: bool,
    pub thresholds: VolumeThresholdColors,
}

/// `p` clamped to at most 100.
pub open spec fn clamp_percent(p: int) -> int {
    if p > 100 { 100 } else { p }
}

/// The legend band color for a percentage and mute state.
pub open spec fn band_color(percent: u8, muted: bool, palette: VolumeThresholdColors) -> Rgba {
    if muted || percent == 0 {
        palette.muted
    } else if percent <= LOW_BAND_UP_TO {
        palette.low
    } else if percent <= MEDIUM_BAND_UP_TO {
        palette.medium
    } else {
        palette.high
    }
}

impl SignalRail {
    pub fn new(percent: u8, muted: bool, thresholds: VolumeThresholdColors) -> (r: Self)
        ensures
            r == (SignalRail { percent, muted, thresholds }),
    {
        SignalRail { percent, muted, thresholds }
    }

    /// Copy with `percent` clamped to at most 100.
    pub fn clamped(&self) -> (r: Self)
        ensures
            r == (SignalRail { percent: clamp_percent(self.percent as int) as u8, ..*self }),
    {
        let p: u8 = if self.percent > 100 { 100 } else { self.percent };
        SignalRail { percent: p, ..*self }
    }

    /// `percent + step`, clamped to at most 100; mute and thresholds are
    /// preserved.
    pub fn step_up(&self, step: u8) -> (r: Self)
        ensures
            r == (SignalRail {
                percent: clamp_percent(clamp_percent(self.percent as int) + step) as u8,
                ..*self
            }),
    {
        let base = self.clamped().percent;
        let sum: u16 = base as u16 + step as u16;
        let p: u8 = if sum > 100 { 100 } else { sum as u8 };
        SignalRail { percent: p, ..*self }
    }

    /// `percent - step`, floored at 0; mute and thresholds are preserved.
    pub fn step_down(&self, step: u8) -> (r: Self)
        ensures
            r == (SignalRail {
                percent: (if clamp_percent(self.percent as int) >= step {
                    clamp_percent(self.percent as int) - step
                } else {
                    0
                }) as u8,
                ..*self
            }),
    {
        let base = self.clamped().percent;
        let p: u8 = if base >= step { base - step } else { 0 };
        SignalRail { percent: p, ..*self }
    }

    /// 0%.
    pub fn home(&self) -> (r: Self)
        ensures
            r == (SignalRail { percent: 0, ..*self }),
    {
        SignalRail { percent: 0, ..*self }
    }

    /// 100%.
    pub fn end(&self) -> (r: Self)
        ensures
            r == (SignalRail { percent: 100, ..*self }),
    {
        SignalRail { percent: 100, ..*self }
    }

    /// Fill color for the current percent.
    pub fn fill_color(&self) -> (r: Rgba)
        ensures
            r == band_color(self.percent, self.muted, self.thresholds),
    {
        if self.muted || self.percent == 0 {
            self.thresholds.muted
        } else if self.percent <= LOW_BAND_UP_TO {
            self.thresholds.low
        } else if self.percent <= MEDIUM_BAND_UP_TO {
            self.thresholds.medium
        } else {
            self.thresholds.high
        }
    }
}

/// Keyboard semantics for a Signal Rail.
#[derive(Debug, Clone, Copy, PartialEq, Eq, Structural)]
pub enum RailKey {
    Home,
    End,
    ArrowUp,
    ArrowDown,
}

/// The percentage a key leads to from `percent` with the given step.
pub open spec fn key_percent(percent: u8, key: RailKey, step: u8) -> int {
    let base = clamp_percent(percent as int);
    match key {
        RailKey::Home => 0,
        RailKey::End => 100,
        RailKey::ArrowUp => clamp_percent(base + step),
        RailKey::ArrowDown => if base >= step { base - step } else { 0 },
    }
}

/// Apply a key: Home → 0, End → 100, arrows step by `step` percent,
/// clamped to 0..=100. Mute and thresholds are preserved.
pub fn rail_apply_key(rail: &SignalRail, key: RailKey, step: u8) -> (r: SignalRail)
    ensures
        r == (SignalRail { percent: key_percent(rail.percent, key, step) as u8, ..*rail }),
        r.percent <= 100,
{
    match key {
        RailKey::Home => rail.home(),
        RailKey::End => rail.end(),
        RailKey::ArrowUp => rail.step_up(step),
        RailKey::ArrowDown => rail.step_down(step),
    }
}

/// Every key keeps the rail inside 0..=100.
pub proof fn lemma_keys_stay_in_range(rail: SignalRail, key: RailKey, step: u8)
    ensures
        0 <= key_percent(rail.percent, key, step) <= 100,
{
}

/// Stepping up and then down by the same step returns to the start when the
/// step does not hit the top of the range.
pub proof fn lemma_step_up_then_down(percent: u8, step: u8)
    requires
        percent + step <= 100,
    ensures
        key_percent(key_percent(percent, RailKey::ArrowUp, step) as u8, RailKey::ArrowDown, step)
            == percent,
{
}

} // verus!
