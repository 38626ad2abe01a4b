//! Platform-neutral colors: the RGBA value type, the volume legend palette,
//! the accent table, and the approved surface/text palettes.

use vstd::prelude::*;
use crate::ui::model::{AccentMode, ThemeMode};

verus! {

/// RGBA color with 8-bit channels, as passed to renderers.
#[derive(Debug, Clone, Copy, PartialEq, Eq, Structural)]
pub struct Rgba {
    pub red: u8,
    pub green: u8,
    pub blue: u8,
    pub alpha: u8,
}

/// A fully opaque color.
pub open spec fn rgb(red: u8, green: u8, blue: u8) -> Rgba {
    Rgba { red, green, blue, alpha: 255 }
}

/// One channel moved `percent`% of the way from `from` toward `to`, rounded
/// to the nearest integer with halves rounded up.
pub open spec fn blend_channel(from: u8, to: u8, percent: u8) -> int {
    (from * (100 - percent) + to * percent + 50) / 100
}

/// The channel-wise blend of two colors (alpha included).
pub open spec fn blend(a: Rgba, b: Rgba, percent: u8) -> Rgba {
    Rgba {
        red: blend_channel(a.red, b.red, percent) as u8,
        green: blend_channel(a.green, b.green, percent) as u8,
        blue: blend_channel(a.blue, b.blue, percent) as u8,
        alpha: blend_channel(a.alpha, b.alpha, percent) as u8,
    }
}

fn blend_u8(from: u8, to: u8, percent: u8) -> (r: u8)
    requires
        percent <= 100,
    ensures
        r == blend_channel(from, to, percent),
{
    let f = from as u32;
    let t = to as u32;
    let p = percent as u32;
    assert(f * (100 - p) <= 255 * (100 - p)) by (nonlinear_arith)
        requires
            f <= 255,
            p <= 100,
    ;
    assert(t * p <= 255 * p) by (nonlinear_arith)
        requires
            t <= 255,
    ;
    let num = f * (100 - p) + t * p + 50;
    assert(num / 100 <= 255) by (nonlinear_arith)
        requires
            num <= 25550,
    ;
    (num / 100) as u8
}

impl Rgba {
    /// Pure white.
    pub fn white() -> (r: Self)
        ensures
            r == rgb(0xFF, 0xFF, 0xFF),
    {
        Rgba::from_rgb(0xFF, 0xFF, 0xFF)
    }

    /// Pure black.
    pub fn black() -> (r: Self)
        ensures
            r == rgb(0x00, 0x00, 0x00),
    {
        Rgba::from_rgb(0x00, 0x00, 0x00)
    }

    /// Fully opaque color from 8-bit channels.
    pub fn from_rgb(red: u8, green: u8, blue: u8) -> (r: Self)
        ensures
            r == rgb(red, green, blue),
    {
        Rgba { red, green, blue, alpha: 255 }
    }

    /// Copy with a new alpha channel.
    pub fn with_alpha(self, alpha: u8) -> (r: Self)
        ensures
            r == (Rgba { alpha, ..self }),
    {
        Rgba { alpha, ..self }
    }

    pub fn is_opaque(self) -> (r: bool)
        ensures
            r == (self.alpha == 255),
    {
        self.alpha == 255
    }

    /// Blend toward `other` by `percent`% per channel (alpha too), rounding
    /// to the nearest channel value with halves rounded up; a percentage
    /// above 100 counts as 100.
    pub fn blend_toward(self, other: Self, percent: u8) -> (r: Self)
        ensures
            r == blend(self, other, if percent > 100 { 100 } else { percent }),
    {
        let p: u8 = if percent > 100 { 100 } else { percent };
        Rgba {
            red: blend_u8(self.red, other.red, p),
            green: blend_u8(self.green, other.green, p),
            blue: blend_u8(self.blue, other.blue, p),
            alpha: blend_u8(self.alpha, other.alpha, p),
        }
    }
}

/// Blending by 0% keeps the color; blending by 100% reaches the target.
pub proof fn lemma_blend_endpoints(a: Rgba, b: Rgba)
    ensures
        blend(a, b, 0) == a,
        blend(a, b, 100) == b,
{
}

/// Volume legend colors (grey when muted/zero, then green / blue / orange
/// bands by percent).
#[derive(Debug, Clone, Copy, PartialEq, Eq, Structural)]
pub struct VolumeThresholdColors {
    pub muted: Rgba,
    pub low: Rgba,
    pub medium: Rgba,
    pub high: Rgba,
}

/// The default volume legend palette.
pub open spec fn default_threshold_colors() -> VolumeThresholdColors {
    VolumeThresholdColors {
        muted: rgb(0x88, 0x88, 0x88),
        low: rgb(0x27, 0xAE, 0x60),
        medium: rgb(0x00, 0x78, 0xD4),
        high: rgb(0xE0, 0x5C, 0x00),
    }
}

impl Default for VolumeThresholdColors {
    fn default() -> (r: Self)
        ensures
            r == default_threshold_colors(),
    {
        VolumeThresholdColors {
            muted: Rgba::from_rgb(0x88, 0x88, 0x88),
            low: Rgba::from_rgb(0x27, 0xAE, 0x60),
            medium: Rgba::from_rgb(0x00, 0x78, 0xD4),
            high: Rgba::from_rgb(0xE0, 0x5C, 0x00),
        }
    }
}

/// The accent blue, light theme.
pub open spec fn accent_blue() -> Rgba {
    rgb(0x00, 0x67, 0xC0)
}

/// The accent blue, dark theme.
pub open spec fn accent_blue_dark() -> Rgba {
    rgb(0x3A, 0xA8, 0xFF)
}

/// Theme-aware accent table: `System` and `Blue` use the light or dark
/// blue; the other accents are theme-independent.
pub open spec fn accent_rgb(accent: AccentMode, dark: bool) -> Rgba {
    match accent {
        AccentMode::System | AccentMode::Blue => if dark {
            accent_blue_dark()
        } else {
            accent_blue()
        },
        AccentMode::Green => rgb(0x10, 0x7C, 0x10),
        AccentMode::Purple => rgb(0x74, 0x4D, 0xA9),
        AccentMode::Orange => rgb(0xCA, 0x50, 0x10),
    }
}

/// Resolve an accent preference to its light-theme color.
pub fn accent_color(accent: AccentMode) -> (r: Rgba)
    ensures
        r == accent_rgb(accent, false),
{
    accent_color_for(accent, false)
}

/// Resolve an accent preference to a concrete, theme-aware color.
pub fn accent_color_for(accent: AccentMode, dark: bool) -> (r: Rgba)
    ensures
        r == accent_rgb(accent, dark),
{
    match accent {
        AccentMode::System | AccentMode::Blue => if dark {
            Rgba::from_rgb(0x3A, 0xA8, 0xFF)
        } else {
            Rgba::from_rgb(0x00, 0x67, 0xC0)
        },
        AccentMode::Green => Rgba::from_rgb(0x10, 0x7C, 0x10),
        AccentMode::Purple => Rgba::from_rgb(0x74, 0x4D, 0xA9),
        AccentMode::Orange => Rgba::from_rgb(0xCA, 0x50, 0x10),
    }
}

/// Hover color for a resolved accent: the approved values for the blue of
/// the matching theme, otherwise 12% toward white (dark) or black (light).
pub open spec fn hover_rgb(accent: Rgba, dark: bool) -> Rgba {
    if !dark && accent == accent_blue() {
        rgb(0x00, 0x5A, 0xAB)
    } else if dark && accent == accent_blue_dark() {
        rgb(0x62, 0xB8, 0xFF)
    } else if dark {
        blend(accent, rgb(0xFF, 0xFF, 0xFF), 12)
    } else {
        blend(accent, rgb(0x00, 0x00, 0x00), 12)
    }
}

/// Pressed color for a resolved accent: the approved values for the blue of
/// the matching theme, otherwise 25% toward white (dark) or black (light).
pub open spec fn pressed_rgb(accent: Rgba, dark: bool) -> Rgba {
    if !dark && accent == accent_blue() {
        rgb(0x00, 0x4A, 0x8D)
    } else if dark && accent == accent_blue_dark() {
        rgb(0x19, 0x8F, 0xEA)
    } else if dark {
        blend(accent, rgb(0xFF, 0xFF, 0xFF), 25)
    } else {
        blend(accent, rgb(0x00, 0x00, 0x00), 25)
    }
}

/// Hover color for the resolved accent.
pub fn accent_hover_for(accent: Rgba, dark: bool) -> (r: Rgba)
    ensures
        r == hover_rgb(accent, dark),
{
    let blue = Rgba::from_rgb(0x00, 0x67, 0xC0);
    let blue_dark = Rgba::from_rgb(0x3A, 0xA8, 0xFF);
    if !dark && accent == blue {
        Rgba::from_rgb(0x00, 0x5A, 0xAB)
    } else if dark && accent == blue_dark {
        Rgba::from_rgb(0x62, 0xB8, 0xFF)
    } else if dark {
        accent.blend_toward(Rgba::white(), 12)
    } else {
        accent.blend_toward(Rgba::black(), 12)
    }
}

/// Pressed color for the resolved accent.
pub fn accent_pressed_for(accent: Rgba, dark: bool) -> (r: Rgba)
    ensures
        r == pressed_rgb(accent, dark),
{
    let blue = Rgba::from_rgb(0x00, 0x67, 0xC0);
    let blue_dark = Rgba::from_rgb(0x3A, 0xA8, 0xFF);
    if !dark && accent == blue {
        Rgba::from_rgb(0x00, 0x4A, 0x8D)
    } else if dark && accent == blue_dark {
        Rgba::from_rgb(0x19, 0x8F, 0xEA)
    } else if dark {
        accent.blend_toward(Rgba::white(), 25)
    } else {
        accent.blend_toward(Rgba::black(), 25)
    }
}

/// A resolved surface/text palette.
#[derive(Debug, Clone, Copy, PartialEq, Eq, Structural)]
pub struct Palette {
    pub background: Rgba,
    pub surface: Rgba,
    pub surface_elevated: Rgba,
    pub surface_subtle: Rgba,
    pub border: Rgba,
    pub border_strong: Rgba,
    pub text_primary: Rgba,
    pub text_secondary: Rgba,
    pub text_disabled: Rgba,
    pub error_text: Rgba,
    pub error_border: Rgba,
    pub error_surface: Rgba,
}

/// The approved light palette.
pub open spec fn light_palette() -> Palette {
    Palette {
        background: rgb(0xF7, 0xF9, 0xFC),
        surface: rgb(0xFF, 0xFF, 0xFF),
        surface_elevated: rgb(0xFF, 0xFF, 0xFF),
        surface_subtle: rgb(0xF1, 0xF4, 0xF8),
        border: rgb(0xD7, 0xDE, 0xE8),
        border_strong: rgb(0xAE, 0xB9, 0xC8),
        text_primary: rgb(0x17, 0x20, 0x2B),
        text_secondary: rgb(0x52, 0x60, 0x71),
        text_disabled: rgb(0x89, 0x95, 0xA3),
        error_text: rgb(0xC4, 0x2B, 0x1C),
        error_border: rgb(0xC4, 0x2B, 0x1C),
        error_surface: rgb(0xFD, 0xE7, 0xE9),
    }
}

/// The approved dark palette.
pub open spec fn dark_palette() -> Palette {
    Palette {
        background: rgb(0x10, 0x13, 0x1A),
        surface: rgb(0x17, 0x1C, 0x24),
        surface_elevated: rgb(0x20, 0x27, 0x35),
        surface_subtle: rgb(0x1C, 0x22, 0x2D),
        border: rgb(0x34, 0x40, 0x52),
        border_strong: rgb(0x53, 0x62, 0x76),
        text_primary: rgb(0xF5, 0xF7, 0xFA),
        text_secondary: rgb(0xAA, 0xB4, 0xC3),
        text_disabled: rgb(0x75, 0x81, 0x92),
        error_text: rgb(0xFF, 0x99, 0xA4),
        error_border: rgb(0xFF, 0x99, 0xA4),
        error_surface: rgb(0x4A, 0x1E, 0x24),
    }
}

/// A two-color high-contrast palette: every surface is `ground`, every
/// border and every text role is `ink`.
pub open spec fn contrast_palette(ground: Rgba, ink: Rgba) -> Palette {
    Palette {
        background: ground,
        surface: ground,
        surface_elevated: ground,
        surface_subtle: ground,
        border: ink,
        border_strong: ink,
        text_primary: ink,
        text_secondary: ink,
        text_disabled: ink,
        error_text: ink,
        error_border: ink,
        error_surface: ground,
    }
}

/// Palette selection: high contrast is black-on-white (light) or
/// white-on-black (dark); otherwise the approved light or dark palette.
pub open spec fn palette_for(dark: bool, high_contrast: bool) -> Palette {
    if high_contrast {
        if dark {
            contrast_palette(rgb(0, 0, 0), rgb(0xFF, 0xFF, 0xFF))
        } else {
            contrast_palette(rgb(0xFF, 0xFF, 0xFF), rgb(0, 0, 0))
        }
    } else if dark {
        dark_palette()
    } else {
        light_palette()
    }
}

fn contrast(ground: Rgba, ink: Rgba) -> (r: Palette)
    ensures
        r == contrast_palette(ground, ink),
{
    Palette {
        background: ground,
        surface: ground,
        surface_elevated: ground,
        surface_subtle: ground,
        border: ink,
        border_strong: ink,
        text_primary: ink,
        text_secondary: ink,
        text_disabled: ink,
        error_text: ink,
        error_border: ink,
        error_surface: ground,
    }
}

impl Palette {
    /// Select the palette for the resolved darkness and contrast mode.
    pub fn select(dark: bool, high_contrast: bool) -> (r: Self)
        ensures
            r == palette_for(dark, high_contrast),
    {
        if high_contrast {
            if dark {
                contrast(Rgba::black(), Rgba::white())
            } else {
                contrast(Rgba::white(), Rgba::black())
            }
        } else if dark {
            Palette {
                background: Rgba::from_rgb(0x10, 0x13, 0x1A),
                surface: Rgba::from_rgb(0x17, 0x1C, 0x24),
                surface_elevated: Rgba::from_rgb(0x20, 0x27, 0x35),
                surface_subtle: Rgba::from_rgb(0x1C, 0x22, 0x2D),
                border: Rgba::from_rgb(0x34, 0x40, 0x52),
                border_strong: Rgba::from_rgb(0x53, 0x62, 0x76),
                text_primary: Rgba::from_rgb(0xF5, 0xF7, 0xFA),
                text_secondary: Rgba::from_rgb(0xAA, 0xB4, 0xC3),
                text_disabled: Rgba::from_rgb(0x75, 0x81, 0x92),
                error_text: Rgba::from_rgb(0xFF, 0x99, 0xA4),
                error_border: Rgba::from_rgb(0xFF, 0x99, 0xA4),
                error_surface: Rgba::from_rgb(0x4A, 0x1E, 0x24),
            }
        } else {
            Palette {
                background: Rgba::from_rgb(0xF7, 0xF9, 0xFC),
                surface: Rgba::from_rgb(0xFF, 0xFF, 0xFF),
                surface_elevated: Rgba::from_rgb(0xFF, 0xFF, 0xFF),
                surface_subtle: Rgba::from_rgb(0xF1, 0xF4, 0xF8),
                border: Rgba::from_rgb(0xD7, 0xDE, 0xE8),
                border_strong: Rgba::from_rgb(0xAE, 0xB9, 0xC8),
                text_primary: Rgba::from_rgb(0x17, 0x20, 0x2B),
                text_secondary: Rgba::from_rgb(0x52, 0x60, 0x71),
                text_disabled: Rgba::from_rgb(0x89, 0x95, 0xA3),
                error_text: Rgba::from_rgb(0xC4, 0x2B, 0x1C),
                error_border: Rgba::from_rgb(0xC4, 0x2B, 0x1C),
                error_surface: Rgba::from_rgb(0xFD, 0xE7, 0xE9),
            }
        }
    }
}

/// High contrast carries no information in tint: every surface of the
/// selected palette is opaque and all text roles share the primary color.
pub proof fn lemma_high_contrast_palette_collapses(dark: bool)
    ensures
        ({
            let p = palette_for(dark, true);
            &&& p.background.alpha == 255
            &&& p.surface.alpha == 255
            &&& p.surface_elevated.alpha == 255
            &&& p.text_secondary == p.text_primary
            &&& p.text_disabled == p.text_primary
            &&& p.text_primary != p.background
        }),
{
}

/// In the normal themes the hover and pressed variants of every accent
/// differ from the accent itself and from each other.
pub proof fn lemma_accent_states_distinct(accent: AccentMode, dark: bool)
    ensures
        ({
            let a = accent_rgb(accent, dark);
            &&& hover_rgb(a, dark) != a
            &&& pressed_rgb(a, dark) != a
            &&& hover_rgb(a, dark) != pressed_rgb(a, dark)
        }),
{
}

/// Error state colors.
#[derive(Debug, Clone, Copy, PartialEq, Eq, Structural)]
pub struct ErrorTokens {
    pub text: Rgba,
    pub border: Rgba,
    pub surface: Rgba,
}

/// Easing policy intent, named qualitatively; renderers map it onto their
/// own curve primitives.
#[derive(Debug, Clone, Copy, PartialEq, Eq, Structural)]
pub enum EasingPolicy {
    /// Constant velocity.
    Linear,
    /// Fast start, gentle finish; the default for entry and exit.
    EaseOut,
    /// Gentle start, fast finish; for interruptible dismissals.
    EaseInOut,
}

impl Default for EasingPolicy {
    fn default() -> (r: Self)
        ensures
            r == EasingPolicy::EaseOut,
    {
        EasingPolicy::EaseOut
    }
}

/// Motion intent: durations in ms plus the easing policy.
#[derive(Debug, Clone, Copy, PartialEq, Eq, Structural)]
pub struct AnimationTokens {
    pub fast_ms: u32,
    pub normal_ms: u32,
    pub slow_ms: u32,
    pub easing: EasingPolicy,
}

impl Default for AnimationTokens {
    fn default() -> (r: Self)
        ensures
            r == (AnimationTokens {
                fast_ms: 120,
                normal_ms: 200,
                slow_ms: 400,
                easing: EasingPolicy::EaseOut,
            }),
            r.fast_ms < r.normal_ms < r.slow_ms,
    {
        AnimationTokens { fast_ms: 120, normal_ms: 200, slow_ms: 400, easing: EasingPolicy::EaseOut }
    }
}

/// Whether a theme preference resolves to the dark palette: explicit
/// themes decide by themselves; `System` asks the platform, and an unknown
/// answer means light.
pub open spec fn dark_for(theme: ThemeMode, detected: Option<bool>) -> bool {
    match theme {
        ThemeMode::Dark => true,
        ThemeMode::Light => false,
        ThemeMode::System => match detected {
            Some(d) => d,
            None => false,
        },
    }
}

/// Resolve a theme preference to dark or light. `system_is_dark` is asked
/// only for [`ThemeMode::System`] and may answer `None` when detection is
/// unavailable, which falls back to light.
pub fn theme_is_dark<F: Fn() -> Option<bool>>(theme: ThemeMode, system_is_dark: F) -> (r: bool)
    requires
        theme == ThemeMode::System ==> call_requires(system_is_dark, ()),
    ensures
        theme != ThemeMode::System ==> r == dark_for(theme, None),
        theme == ThemeMode::System ==> exists|detected: Option<bool>|
            #[trigger] call_ensures(system_is_dark, (), detected) && r == dark_for(theme, detected),
{
    match theme {
        ThemeMode::Dark => true,
        ThemeMode::Light => false,
        ThemeMode::System => {
            let detected = system_is_dark();
            match detected {
                Some(d) => d,
                None => false,
            }
        },
    }
}

/// The color part of the resolved design tokens for one appearance.
#[derive(Debug, Clone, Copy, PartialEq, Eq, Structural)]
pub struct ThemeColors {
    pub is_dark: bool,
    pub high_contrast: bool,
    pub background: Rgba,
    pub surface: Rgba,
    pub surface_elevated: Rgba,
    pub border: Rgba,
    pub text_primary: Rgba,
    pub text_secondary: Rgba,
    pub text_disabled: Rgba,
    /// Text drawn on an accent fill.
    pub text_on_accent: Rgba,
    /// The resolved accent and its hover variant.
    pub accent: Rgba,
    pub accent_hover: Rgba,
    /// Volume legend colors (mode-independent).
    pub volume_threshold: VolumeThresholdColors,
    /// Outer focus ring (the accent) and inner contrast ring.
    pub focus_ring: Rgba,
    pub focus_inner_ring: Rgba,
    pub error: ErrorTokens,
}

/// The colors of an appearance. `white_on_accent` says whether white text
/// reads on the resolved accent (its relative luminance is at most 0.30);
/// otherwise text on the accent is black. High contrast keeps the accent
/// unmodified on hover.
pub open spec fn colors_for(dark: bool, high_contrast: bool, accent: AccentMode, white_on_accent: bool) -> ThemeColors {
    let a = accent_rgb(accent, dark);
    let p = palette_for(dark, high_contrast);
    ThemeColors {
        is_dark: dark,
        high_contrast,
        background: p.background,
        surface: p.surface,
        surface_elevated: p.surface_elevated,
        border: p.border,
        text_primary: p.text_primary,
        text_secondary: p.text_secondary,
        text_disabled: p.text_disabled,
        text_on_accent: if white_on_accent { rgb(0xFF, 0xFF, 0xFF) } else { rgb(0, 0, 0) },
        accent: a,
        accent_hover: if high_contrast { a } else { hover_rgb(a, dark) },
        volume_threshold: default_threshold_colors(),
        focus_ring: a,
        focus_inner_ring: p.text_primary,
        error: ErrorTokens { text: p.error_text, border: p.error_border, surface: p.error_surface },
    }
}

/// Semantic state colors derived from resolved theme colors.
///
/// High contrast collapses every tint-only meaning: all surfaces equal
/// `surface`, strong borders equal `border`, and all state and status text
/// equals `text_primary`.
#[derive(Debug, Clone, Copy, PartialEq, Eq, Structural)]
pub struct SignalGlassTokens {
    pub surface_subtle: Rgba,
    pub border_strong: Rgba,
    pub accent_pressed: Rgba,
    pub selected_surface: Rgba,
    pub selected_text: Rgba,
    pub disabled_surface: Rgba,
    pub disabled_text: Rgba,
    pub muted: Rgba,
    pub status_success: Rgba,
    pub status_warning: Rgba,
    pub status_info: Rgba,
}

/// The state colors of resolved theme colors.
pub open spec fn signal_glass_of(t: ThemeColors) -> SignalGlassTokens {
    let p = palette_for(t.is_dark, t.high_contrast);
    if t.high_contrast {
        SignalGlassTokens {
            surface_subtle: p.surface,
            border_strong: p.border,
            accent_pressed: t.accent,
            selected_surface: p.surface,
            selected_text: p.text_primary,
            disabled_surface: p.surface,
            disabled_text: p.text_primary,
            muted: p.text_primary,
            status_success: p.text_primary,
            status_warning: p.text_primary,
            status_info: p.text_primary,
        }
    } else {
        SignalGlassTokens {
            surface_subtle: p.surface_subtle,
            border_strong: p.border_strong,
            accent_pressed: pressed_rgb(t.accent, t.is_dark),
            selected_surface: t.accent,
            selected_text: t.text_on_accent,
            disabled_surface: p.surface_subtle,
            disabled_text: t.text_disabled,
            muted: t.volume_threshold.muted,
            status_success: t.volume_threshold.low,
            status_warning: t.volume_threshold.high,
            status_info: t.volume_threshold.medium,
        }
    }
}

impl ThemeColors {
    /// Resolve the colors of an appearance (see [`colors_for`]).
    pub fn build(dark: bool, high_contrast: bool, accent: AccentMode, white_on_accent: bool) -> (r: Self)
        ensures
            r == colors_for(dark, high_contrast, accent, white_on_accent),
    {
        let accent = accent_color_for(accent, dark);
        let palette = Palette::select(dark, high_contrast);
        let accent_hover = if high_contrast { accent } else { accent_hover_for(accent, dark) };
        let text_on_accent = if white_on_accent { Rgba::white() } else { Rgba::black() };
        ThemeColors {
            is_dark: dark,
            high_contrast,
            background: palette.background,
            surface: palette.surface,
            surface_elevated: palette.surface_elevated,
            border: palette.border,
            text_primary: palette.text_primary,
            text_secondary: palette.text_secondary,
            text_disabled: palette.text_disabled,
            text_on_accent,
            accent,
            accent_hover,
            volume_threshold: VolumeThresholdColors::default(),
            focus_ring: accent,
            focus_inner_ring: palette.text_primary,
            error: ErrorTokens {
                text: palette.error_text,
                border: palette.error_border,
                surface: palette.error_surface,
            },
        }
    }

    /// Derive the semantic state colors from these resolved colors.
    pub fn signal_glass(self) -> (r: SignalGlassTokens)
        ensures
            r == signal_glass_of(self),
    {
        let palette = Palette::select(self.is_dark, self.high_contrast);
        if self.high_contrast {
            SignalGlassTokens {
                surface_subtle: palette.surface,
                border_strong: palette.border,
                accent_pressed: self.accent,
                selected_surface: palette.surface,
                selected_text: palette.text_primary,
                disabled_surface: palette.surface,
                disabled_text: palette.text_primary,
                muted: palette.text_primary,
                status_success: palette.text_primary,
                status_warning: palette.text_primary,
                status_info: palette.text_primary,
            }
        } else {
            SignalGlassTokens {
                surface_subtle: palette.surface_subtle,
                border_strong: palette.border_strong,
                accent_pressed: accent_pressed_for(self.accent, self.is_dark),
                selected_surface: self.accent,
                selected_text: self.text_on_accent,
                disabled_surface: palette.surface_subtle,
                disabled_text: self.text_disabled,
                muted: self.volume_threshold.muted,
                status_success: self.volume_threshold.low,
                status_warning: self.volume_threshold.high,
                status_info: self.volume_threshold.medium,
            }
        }
    }
}

/// High contrast: every surface and state fill is opaque and equal to the
/// surface, strong borders equal the border, all state and status text is
/// the primary text, and the accent keeps its color when hovered or
/// pressed.
pub proof fn lemma_high_contrast_collapses_state_tokens(dark: bool, accent: AccentMode, white_on_accent: bool)
    ensures
        ({
            let t = colors_for(dark, true, accent, white_on_accent);
            let sg = signal_glass_of(t);
            &&& t.background.alpha == 255 && t.surface.alpha == 255 && t.surface_elevated.alpha == 255
            &&& sg.surface_subtle == t.surface
            &&& sg.selected_surface == t.surface
            &&& sg.disabled_surface == t.surface
            &&& sg.border_strong == t.border
            &&& sg.selected_text == t.text_primary
            &&& sg.disabled_text == t.text_primary
            &&& sg.muted == t.text_primary
            &&& sg.status_success == t.text_primary
            &&& sg.status_warning == t.text_primary
            &&& sg.status_info == t.text_primary
            &&& t.text_secondary == t.text_primary
            &&& t.text_disabled == t.text_primary
            &&& sg.accent_pressed == t.accent
            &&& t.accent_hover == t.accent
        }),
{
}

/// In the normal themes the accent, its hover and its pressed colors are
/// three different colors, and the focus ring differs from its inner ring.
pub proof fn lemma_normal_theme_accent_states_distinct(dark: bool, accent: AccentMode, white_on_accent: bool)
    ensures
        ({
            let t = colors_for(dark, false, accent, white_on_accent);
            let sg = signal_glass_of(t);
            &&& t.accent != t.accent_hover
            &&& t.accent != sg.accent_pressed
            &&& t.accent_hover != sg.accent_pressed
            &&& t.focus_ring != t.focus_inner_ring
        }),
{
    lemma_accent_states_distinct(accent, dark);
}

} // verus!
