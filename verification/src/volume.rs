//! The volume legend: which color a volume level is shown in.

use vstd::prelude::*;
use crate::config::ColorThresholds;

verus! {

/// Legend color for a level: muted (or 0%) is grey, then green, blue and
/// orange by the configured band limits.
pub open spec fn legend_rgb(percent: u8, muted: bool, t: ColorThresholds) -> (u8, u8, u8) {
    if muted || percent == 0 {
        (0x88, 0x88, 0x88)
    } else if percent <= t.green_up_to {
        (0x27, 0xAE, 0x60)
    } else if percent <= t.blue_up_to {
        (0x00, 0x78, 0xD4)
    } else {
        (0xE0, 0x5C, 0x00)
    }
}

/// The legend color of a volume level under the configured thresholds.
pub fn volume_color_rgb(percent: u8, muted: bool, thresholds: &ColorThresholds) -> (r: (u8, u8, u8))
    ensures
        r == legend_rgb(percent, muted, *thresholds),
{
    if muted || percent == 0 {
        (0x88, 0x88, 0x88)
    } else if percent <= thresholds.green_up_to {
        (0x27, 0xAE, 0x60)
    } else if percent <= thresholds.blue_up_to {
        (0x00, 0x78, 0xD4)
    } else {
        (0xE0, 0x5C, 0x00)
    }
}

/// The Signal Rail's fill color under the default legend palette is the
/// legend color of the level under the default thresholds, for every
/// level and mute state.
pub proof fn lemma_rail_fill_matches_legend(percent: u8, muted: bool)
    ensures
        ({
            let c = crate::ui::signal_rail::band_color(
                percent,
                muted,
                crate::ui::theme::default_threshold_colors(),
            );
            let l = legend_rgb(
                percent,
                muted,
                ColorThresholds { green_up_to: 40, blue_up_to: 75, orange_up_to: 100 },
            );
            c == crate::ui::theme::rgb(l.0, l.1, l.2)
        }),
{
}

/// The legend shows muted (or silent) output in grey whatever the
/// thresholds; otherwise a level at or under the green limit is green, one
/// above it but at or under the blue limit is blue, and anything higher is
/// orange.
pub proof fn lemma_legend_bands(percent: u8, muted: bool, t: ColorThresholds)
    ensures
        muted || percent == 0 ==> legend_rgb(percent, muted, t) == (0x88u8, 0x88u8, 0x88u8),
        !muted && 0 < percent <= t.green_up_to ==> legend_rgb(percent, muted, t) == (
            0x27u8,
            0xAEu8,
            0x60u8,
        ),
        !muted && percent > 0 && t.green_up_to < percent <= t.blue_up_to ==> legend_rgb(
            percent,
            muted,
            t,
        ) == (0x00u8, 0x78u8, 0xD4u8),
        !muted && percent > 0 && percent > t.green_up_to && percent > t.blue_up_to ==> legend_rgb(
            percent,
            muted,
            t,
        ) == (0xE0u8, 0x5Cu8, 0x00u8),
{
}

} // verus!
