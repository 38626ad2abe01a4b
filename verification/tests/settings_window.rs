use volumectl::config::{
    Platform, normalize, prepare_save, validate, Config, ConfigError, HotkeyModifier};
use volumectl::settings_window::{
    accent_from_index, accent_index, control_values_to_config, inline_error_fields,
    material_from_index, material_index, modifier_from_index, modifier_index, motion_from_index,
    motion_index, normalize_blacklist_entry, section_of_field, theme_from_index, theme_index,
    ControlValues, Section,
};
use volumectl::ui::draft::SettingsDraft;
use volumectl::ui::model::{AccentMode, MaterialMode, MotionMode, ThemeMode};
use volumectl::ui::surface::{place_centered, SurfaceSize, WorkArea};

const WIN_W: i32 = 760;
const WIN_H: i32 = 620;

fn control_values() -> ControlValues {
    ControlValues {
        volume_step: 2,
        volume_step_large: 10,
        overlay_duration_ms: 1800,
        modifier: HotkeyModifier::CtrlAlt,
        theme: ThemeMode::System,
        material: MaterialMode::Auto,
        motion: MotionMode::Full,
        accent: AccentMode::System,
        beep_enabled: true,
        blocked_freq: 400,
        blocked_duration_ms: 80,
        limit_freq: 600,
        limit_duration_ms: 60,
        blacklist: vec!["chrome.exe".to_string()],
    }
}

#[test]
fn control_values_map_into_config_and_preserve_unexposed_fields() {
    let base = Config::default();
    let mut values = control_values();
    values.volume_step = 5;
    values.volume_step_large = 25;
    values.overlay_duration_ms = 3000;
    values.modifier = HotkeyModifier::Ctrl;
    values.theme = ThemeMode::Dark;
    values.material = MaterialMode::Translucent;
    values.motion = MotionMode::Reduced;
    values.accent = AccentMode::Purple;
    values.beep_enabled = false;
    values.blocked_freq = 500;
    values.blocked_duration_ms = 100;
    values.limit_freq = 700;
    values.limit_duration_ms = 90;
    values.blacklist = vec!["msedge.exe".to_string()];

    let cfg = control_values_to_config(&base, &values);

    assert_eq!(cfg.volume_step, 5);
    assert_eq!(cfg.volume_step_large, 25);
    assert_eq!(cfg.overlay_duration_ms, 3000);
    assert_eq!(cfg.modifier, HotkeyModifier::Ctrl);
    assert_eq!(cfg.appearance.theme, ThemeMode::Dark);
    assert_eq!(cfg.appearance.material, MaterialMode::Translucent);
    assert_eq!(cfg.appearance.motion, MotionMode::Reduced);
    assert_eq!(cfg.appearance.accent, AccentMode::Purple);
    assert!(!cfg.beep.enabled);
    assert_eq!(cfg.beep.blocked_freq, 500);
    assert_eq!(cfg.beep.blocked_duration_ms, 100);
    assert_eq!(cfg.beep.limit_freq, 700);
    assert_eq!(cfg.beep.limit_duration_ms, 90);
    assert_eq!(cfg.blacklist, vec!["msedge.exe".to_string()]);
    assert_eq!(cfg.color_thresholds, base.color_thresholds);
}

#[test]
fn invalid_control_values_fail_validation_and_keep_the_draft_intact() {
    let mut draft = SettingsDraft::new(Config::default());
    let mut values = control_values();
    values.volume_step = 30;
    values.volume_step_large = 29;
    let invalid = control_values_to_config(&Config::default(), &values);

    draft.set_current(invalid.clone());
    let before = draft.current().clone();

    let error = draft.validate().expect_err("invalid draft must fail");
    assert_eq!(error.field, "volume_step_large");

    // Saving validates before anything is written, so the draft keeps the edits.
    let error = draft.commit_with(|c| prepare_save(c, Platform::Windows)).expect_err("invalid draft must not persist");
    assert!(matches!(error, ConfigError::Validation(_)));
    assert_eq!(draft.current(), &before, "edits stay intact");
    assert!(draft.is_dirty());
}

#[test]
fn valid_control_values_pass_validation_and_normalize_for_save() {
    let mut values = control_values();
    values.volume_step = 4;
    values.volume_step_large = 12;
    values.blacklist = vec!["  Chrome.EXE  ".to_string()];

    let cfg = control_values_to_config(&Config::default(), &values);
    validate(&cfg).expect("control values are valid");

    let normalized = normalize(cfg.clone(), Platform::Windows);
    assert_eq!(normalized.volume_step, 4);
    assert_eq!(normalized.blacklist, vec!["chrome.exe".to_string()]);

    let mut draft = SettingsDraft::new(Config::default());
    draft.set_current(cfg);
    assert!(draft.validate().is_ok());
    assert!(draft.is_dirty());
}

#[test]
fn enum_index_mappings_round_trip() {
    for m in [
        HotkeyModifier::CtrlAlt,
        HotkeyModifier::Alt,
        HotkeyModifier::Ctrl,
        HotkeyModifier::CapsLock,
    ] {
        assert_eq!(modifier_from_index(modifier_index(m) as i32), m);
    }
    for t in [ThemeMode::System, ThemeMode::Light, ThemeMode::Dark] {
        assert_eq!(theme_from_index(theme_index(t) as i32), t);
    }
    for m in [MaterialMode::Auto, MaterialMode::Translucent, MaterialMode::Opaque] {
        assert_eq!(material_from_index(material_index(m) as i32), m);
    }
    for m in [MotionMode::Full, MotionMode::Reduced, MotionMode::Disabled] {
        assert_eq!(motion_from_index(motion_index(m) as i32), m);
    }
    for a in [
        AccentMode::System,
        AccentMode::Blue,
        AccentMode::Green,
        AccentMode::Purple,
        AccentMode::Orange,
    ] {
        assert_eq!(accent_from_index(accent_index(a) as i32), a);
    }
}

#[test]
fn combo_defaults_are_first_item() {
    assert_eq!(modifier_from_index(-1), HotkeyModifier::CtrlAlt);
    assert_eq!(theme_from_index(-1), ThemeMode::System);
    assert_eq!(material_from_index(-1), MaterialMode::Auto);
    assert_eq!(motion_from_index(-1), MotionMode::Full);
    assert_eq!(accent_from_index(-1), AccentMode::System);
}

#[test]
fn blacklist_entry_normalization_trims_lowercases_and_ensures_exe() {
    assert_eq!(normalize_blacklist_entry("Chrome"), "chrome.exe");
    assert_eq!(normalize_blacklist_entry("  code.EXE  "), "code.exe");
    assert_eq!(normalize_blacklist_entry("notepad++.exe"), "notepad++.exe");
    assert_eq!(normalize_blacklist_entry(""), "");
    assert_eq!(normalize_blacklist_entry("   "), "");
}

#[test]
fn centered_placement_uses_the_work_area() {
    let wa = WorkArea::new(0, 0, 2560, 1400);
    let rect = place_centered(wa, SurfaceSize::new(WIN_W, WIN_H));
    assert_eq!(rect.width(), WIN_W);
    assert_eq!(rect.height(), WIN_H);
    assert!(rect.left >= wa.x && rect.top >= wa.y);
}

#[test]
fn section_index_round_trip_and_wrap_navigation() {
    for (i, section) in Section::all().iter().enumerate() {
        assert_eq!(section.index(), i);
        assert_eq!(Section::from_index(i), *section);
    }
    assert_eq!(Section::General.previous(), Section::Storage);
    assert_eq!(Section::Storage.next(), Section::General);
    assert_eq!(Section::Appearance.next(), Section::Blacklist);
    assert_eq!(Section::Appearance.previous(), Section::Hotkeys);
}

#[test]
fn validation_field_sections_cover_every_inline_field() {
    assert_eq!(section_of_field("volume_step"), Some(Section::General));
    assert_eq!(section_of_field("volume_step_large"), Some(Section::General));
    assert_eq!(section_of_field("overlay_duration_ms"), Some(Section::General));
    assert_eq!(section_of_field("beep.blocked_freq"), Some(Section::Feedback));
    assert_eq!(section_of_field("beep.blocked_duration_ms"), Some(Section::Feedback));
    assert_eq!(section_of_field("beep.limit_freq"), Some(Section::Feedback));
    assert_eq!(section_of_field("beep.limit_duration_ms"), Some(Section::Feedback));
    assert_eq!(section_of_field("anything_else"), None);
    for field in inline_error_fields() {
        assert!(section_of_field(field).is_some(), "{field}");
    }
}

#[test]
fn centered_placement_pins_an_oversized_window_to_the_origin() {
    let wa = WorkArea::new(-100, 50, 500, 400);
    let rect = place_centered(wa, SurfaceSize::new(WIN_W, WIN_H));
    assert_eq!(rect.left, -100);
    assert_eq!(rect.top, 50);
    assert_eq!(rect.width(), WIN_W);
    let centered = place_centered(WorkArea::new(0, 0, 1000, 800), SurfaceSize::new(600, 400));
    assert_eq!((centered.left, centered.top), (200, 200));
}

#[test]
fn section_titles_and_navigation_wrap_both_ways() {
    for section in Section::all() {
        assert_eq!(section.next().previous(), section);
        assert_eq!(section.previous().next(), section);
        assert!(!section.title().is_empty());
    }
    assert_eq!(Section::from_index(6), Section::General);
}
