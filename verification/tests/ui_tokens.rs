use volumectl::ui::canvas::{decimal_text, overlay_value};
use volumectl::ui::model::{AccentMode, ThemeMode};
use volumectl::ui::signal_rail::SignalRail;
use volumectl::ui::theme::{
    accent_color_for, theme_is_dark, AnimationTokens, EasingPolicy, Rgba, ThemeColors,
    VolumeThresholdColors,
};

const ALL_ACCENTS: [AccentMode; 5] = [
    AccentMode::System,
    AccentMode::Blue,
    AccentMode::Green,
    AccentMode::Purple,
    AccentMode::Orange,
];

fn colors(theme: ThemeMode, high_contrast: bool, system_dark: Option<bool>) -> ThemeColors {
    let dark = theme_is_dark(theme, || system_dark);
    ThemeColors::build(dark, high_contrast, AccentMode::System, true)
}

#[test]
fn system_theme_resolves_through_callback() {
    let dark = colors(ThemeMode::System, false, Some(true));
    assert!(dark.is_dark);
    assert_eq!(dark.background, Rgba::from_rgb(0x10, 0x13, 0x1A));
    let light = colors(ThemeMode::System, false, Some(false));
    assert!(!light.is_dark);
    assert_eq!(light.background, Rgba::from_rgb(0xF7, 0xF9, 0xFC));
}

#[test]
fn unknown_system_darkness_defaults_to_light() {
    let unknown = colors(ThemeMode::System, false, None);
    assert!(!unknown.is_dark);
    assert_eq!(unknown.background, Rgba::from_rgb(0xF7, 0xF9, 0xFC));
}

#[test]
fn explicit_theme_overrides_system_detection() {
    assert!(colors(ThemeMode::Dark, false, Some(false)).is_dark);
    assert!(!colors(ThemeMode::Light, false, Some(true)).is_dark);
    // An explicit theme never asks the platform.
    let asked = std::cell::Cell::new(false);
    let dark = theme_is_dark(ThemeMode::Dark, || {
        asked.set(true);
        Some(false)
    });
    assert!(dark);
    assert!(!asked.get());
}

#[test]
fn resolved_colors_carry_the_requested_accent() {
    for dark in [false, true] {
        for accent in ALL_ACCENTS {
            let t = ThemeColors::build(dark, false, accent, true);
            let resolved = accent_color_for(accent, dark);
            assert_eq!(t.accent, resolved);
            assert_eq!(t.focus_ring, resolved);
        }
    }
}

#[test]
fn light_palette_matches_the_approved_signal_glass_hex_values() {
    let t = colors(ThemeMode::Light, false, None);
    let sg = t.signal_glass();
    assert_eq!(t.background, Rgba::from_rgb(0xF7, 0xF9, 0xFC));
    assert_eq!(t.surface, Rgba::from_rgb(0xFF, 0xFF, 0xFF));
    assert_eq!(t.surface_elevated, Rgba::from_rgb(0xFF, 0xFF, 0xFF));
    assert_eq!(sg.surface_subtle, Rgba::from_rgb(0xF1, 0xF4, 0xF8));
    assert_eq!(t.border, Rgba::from_rgb(0xD7, 0xDE, 0xE8));
    assert_eq!(sg.border_strong, Rgba::from_rgb(0xAE, 0xB9, 0xC8));
    assert_eq!(t.text_primary, Rgba::from_rgb(0x17, 0x20, 0x2B));
    assert_eq!(t.text_secondary, Rgba::from_rgb(0x52, 0x60, 0x71));
    assert_eq!(t.text_disabled, Rgba::from_rgb(0x89, 0x95, 0xA3));
    assert_eq!(t.accent, Rgba::from_rgb(0x00, 0x67, 0xC0));
    assert_eq!(t.accent_hover, Rgba::from_rgb(0x00, 0x5A, 0xAB));
    assert_eq!(sg.accent_pressed, Rgba::from_rgb(0x00, 0x4A, 0x8D));
    assert_eq!(t.error.text, Rgba::from_rgb(0xC4, 0x2B, 0x1C));
    assert_eq!(t.error.surface, Rgba::from_rgb(0xFD, 0xE7, 0xE9));
}

#[test]
fn dark_palette_matches_the_approved_signal_glass_hex_values() {
    let t = colors(ThemeMode::Dark, false, None);
    let sg = t.signal_glass();
    assert_eq!(t.background, Rgba::from_rgb(0x10, 0x13, 0x1A));
    assert_eq!(t.surface, Rgba::from_rgb(0x17, 0x1C, 0x24));
    assert_eq!(t.surface_elevated, Rgba::from_rgb(0x20, 0x27, 0x35));
    assert_eq!(sg.surface_subtle, Rgba::from_rgb(0x1C, 0x22, 0x2D));
    assert_eq!(t.border, Rgba::from_rgb(0x34, 0x40, 0x52));
    assert_eq!(sg.border_strong, Rgba::from_rgb(0x53, 0x62, 0x76));
    assert_eq!(t.text_primary, Rgba::from_rgb(0xF5, 0xF7, 0xFA));
    assert_eq!(t.text_secondary, Rgba::from_rgb(0xAA, 0xB4, 0xC3));
    assert_eq!(t.text_disabled, Rgba::from_rgb(0x75, 0x81, 0x92));
    assert_eq!(t.accent, Rgba::from_rgb(0x3A, 0xA8, 0xFF));
    assert_eq!(t.accent_hover, Rgba::from_rgb(0x62, 0xB8, 0xFF));
    assert_eq!(sg.accent_pressed, Rgba::from_rgb(0x19, 0x8F, 0xEA));
}

#[test]
fn normal_themes_keep_accent_states_distinct() {
    for t in [colors(ThemeMode::Light, false, None), colors(ThemeMode::Dark, false, None)] {
        let sg = t.signal_glass();
        assert_ne!(t.accent, t.accent_hover, "{:?}", t.accent);
        assert_ne!(t.accent, sg.accent_pressed, "{:?}", t.accent);
        assert_ne!(t.accent_hover, sg.accent_pressed, "{:?}", t.accent_hover);
        assert_ne!(t.focus_ring, t.focus_inner_ring);
    }
}

#[test]
fn high_contrast_collapses_text_to_maximal_contrast() {
    let dark = colors(ThemeMode::Dark, true, None);
    assert_eq!(dark.background, Rgba::black());
    assert_eq!(dark.text_primary, Rgba::white());
    assert_eq!(dark.text_secondary, dark.text_primary);
    assert_eq!(dark.text_disabled, dark.text_primary);

    let light = colors(ThemeMode::Light, true, None);
    assert_eq!(light.background, Rgba::white());
    assert_eq!(light.text_primary, Rgba::black());
    assert_eq!(light.text_secondary, light.text_primary);
}

#[test]
fn high_contrast_forces_opaque_surfaces_and_collapses_state_tokens() {
    for system_dark in [Some(true), Some(false)] {
        let t = colors(ThemeMode::System, true, system_dark);
        let sg = t.signal_glass();
        for s in [
            t.background,
            t.surface,
            t.surface_elevated,
            sg.surface_subtle,
            sg.selected_surface,
            sg.disabled_surface,
        ] {
            assert!(s.is_opaque(), "{s:?}");
        }
        assert_eq!(sg.surface_subtle, t.surface);
        assert_eq!(sg.selected_surface, t.surface);
        assert_eq!(sg.disabled_surface, t.surface);
        assert_eq!(sg.border_strong, t.border);
        assert_eq!(sg.selected_text, t.text_primary);
        assert_eq!(sg.disabled_text, t.text_primary);
        assert_eq!(sg.muted, t.text_primary);
        assert_eq!(sg.status_success, t.text_primary);
        assert_eq!(sg.status_warning, t.text_primary);
        assert_eq!(sg.status_info, t.text_primary);
        assert_eq!(sg.accent_pressed, t.accent);
        assert_eq!(t.accent_hover, t.accent);
    }
}

#[test]
fn signal_glass_tokens_match_approved_light_and_dark_values() {
    let light = colors(ThemeMode::Light, false, None);
    let sg = light.signal_glass();
    assert_eq!(sg.surface_subtle, Rgba::from_rgb(0xF1, 0xF4, 0xF8));
    assert_eq!(sg.border_strong, Rgba::from_rgb(0xAE, 0xB9, 0xC8));
    assert_eq!(sg.accent_pressed, Rgba::from_rgb(0x00, 0x4A, 0x8D));
    assert_eq!(sg.selected_surface, light.accent);
    assert_eq!(sg.selected_text, light.text_on_accent);
    assert_eq!(sg.disabled_surface, sg.surface_subtle);
    assert_eq!(sg.disabled_text, light.text_disabled);
    assert_eq!(sg.muted, light.volume_threshold.muted);
    assert_eq!(sg.status_success, light.volume_threshold.low);
    assert_eq!(sg.status_warning, light.volume_threshold.high);
    assert_eq!(sg.status_info, light.volume_threshold.medium);

    let dark = colors(ThemeMode::Dark, false, None);
    let sg = dark.signal_glass();
    assert_eq!(sg.surface_subtle, Rgba::from_rgb(0x1C, 0x22, 0x2D));
    assert_eq!(sg.border_strong, Rgba::from_rgb(0x53, 0x62, 0x76));
    assert_eq!(sg.accent_pressed, Rgba::from_rgb(0x19, 0x8F, 0xEA));
    assert_eq!(sg.selected_surface, dark.accent);
    assert_eq!(sg.selected_text, dark.text_on_accent);
    assert_eq!(sg.disabled_text, dark.text_disabled);
    assert_eq!(sg.muted, Rgba::from_rgb(0x88, 0x88, 0x88));
    assert_eq!(sg.status_success, Rgba::from_rgb(0x27, 0xAE, 0x60));
    assert_eq!(sg.status_warning, Rgba::from_rgb(0xE0, 0x5C, 0x00));
    assert_eq!(sg.status_info, Rgba::from_rgb(0x00, 0x78, 0xD4));
}

#[test]
fn text_on_accent_follows_the_luminance_answer() {
    assert_eq!(ThemeColors::build(false, false, AccentMode::Green, true).text_on_accent, Rgba::white());
    assert_eq!(ThemeColors::build(true, false, AccentMode::Blue, false).text_on_accent, Rgba::black());
}

#[test]
fn animation_tokens_are_ordered_with_ease_out() {
    let a = AnimationTokens::default();
    assert_eq!((a.fast_ms, a.normal_ms, a.slow_ms), (120, 200, 400));
    assert!(a.fast_ms < a.normal_ms && a.normal_ms < a.slow_ms);
    assert_eq!(a.easing, EasingPolicy::EaseOut);
    assert_eq!(EasingPolicy::default(), EasingPolicy::EaseOut);
}

#[test]
fn decimal_text_writes_every_byte() {
    assert_eq!(decimal_text(0), "0");
    assert_eq!(decimal_text(7), "7");
    assert_eq!(decimal_text(10), "10");
    assert_eq!(decimal_text(72), "72");
    assert_eq!(decimal_text(100), "100");
    assert_eq!(decimal_text(255), "255");
    for n in 0..=255u8 {
        assert_eq!(decimal_text(n), n.to_string());
    }
}

#[test]
fn overlay_value_reads_percent_or_muted() {
    let palette = VolumeThresholdColors::default();
    let (text, color) = overlay_value(&SignalRail::new(72, false, palette));
    assert_eq!(text, "72%");
    assert_eq!(color, Rgba::from_rgb(0xF5, 0xF7, 0xFA));
    let (text, color) = overlay_value(&SignalRail::new(180, false, palette));
    assert_eq!(text, "100%");
    assert_eq!(color, Rgba::from_rgb(0xF5, 0xF7, 0xFA));
    let (text, color) = overlay_value(&SignalRail::new(40, true, palette));
    assert_eq!(text, "Muted");
    assert_eq!(color, palette.muted);
}
