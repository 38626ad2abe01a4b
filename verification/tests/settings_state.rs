use volumectl::config::{
    Platform, prepare_save, Config, ConfigError, ConfigValidationError};
use volumectl::settings_state::{
    add_entry, apply_appearance_choice, apply_enabled, apply_feedback, clear_entries,
    clear_field_error, inline_error_visible, merge_entries, remove_entry, static_tone,
    settings_reaction, status_announcement, tab_cycle, NavKey, SettingsEvent, SettingsReaction,
    StatusKind, TextTone, ID_ERR_LIMIT_DUR, ID_ERR_VOL_STEP,
};
use volumectl::settings_window::{
    ControlValues, Section, ID_BTN_APPLY, ID_BTN_BLACKLIST_ADD, ID_BTN_CLOSE, ID_CHK_BEEP,
    ID_COMBO_ACCENT, ID_COMBO_MODIFIER, ID_COMBO_THEME, ID_HDR_GENERAL, ID_OVERLAY_MS,
    ID_HDR_STORAGE, ID_LBL_THEME, ID_ST_STATUS,
};
use volumectl::ui::draft::SettingsDraft;
use volumectl::ui::model::{AccentMode, MaterialMode, MotionMode, ThemeMode};
use volumectl::config::HotkeyModifier;

fn draft_with(blacklist: &[&str]) -> SettingsDraft {
    let mut cfg = Config::default();
    cfg.blacklist = blacklist.iter().map(|s| s.to_string()).collect();
    SettingsDraft::new(cfg)
}

fn stored_failure(draft: &mut SettingsDraft, field: &'static str) {
    let _ = draft.commit_with(move |_| {
        Err(ConfigError::Validation(ConfigValidationError { field, message: "stale".into() }))
    });
}

#[test]
fn adding_normalizes_and_skips_blank_or_listed_names() {
    let mut draft = draft_with(&["chrome.exe"]);
    assert!(add_entry(&mut draft, "  Code "));
    assert_eq!(draft.current().blacklist, vec!["chrome.exe", "code.exe"]);
    assert!(draft.is_dirty());
    assert!(!add_entry(&mut draft, "CHROME.exe"));
    assert!(!add_entry(&mut draft, "   "));
    assert_eq!(draft.current().blacklist, vec!["chrome.exe", "code.exe"]);
}

#[test]
fn removing_drops_every_copy_and_reports_absence() {
    let mut draft = draft_with(&["a.exe", "b.exe", "a.exe"]);
    assert!(remove_entry(&mut draft, "a.exe"));
    assert_eq!(draft.current().blacklist, vec!["b.exe"]);
    assert!(!remove_entry(&mut draft, "a.exe"));
    assert!(!remove_entry(&mut draft, "B.exe"));
    assert_eq!(draft.current().blacklist, vec!["b.exe"]);
}

#[test]
fn clearing_empties_the_list_once() {
    let mut draft = draft_with(&["a.exe"]);
    assert!(clear_entries(&mut draft));
    assert!(draft.current().blacklist.is_empty());
    assert!(draft.is_dirty());
    assert!(!clear_entries(&mut draft));
}

#[test]
fn merging_appends_only_missing_recommendations() {
    let mut draft = draft_with(&["chrome.exe"]);
    let rec = vec!["chrome.exe".to_string(), "code.exe".to_string(), "code.exe".to_string()];
    assert!(merge_entries(&mut draft, &rec));
    assert_eq!(draft.current().blacklist, vec!["chrome.exe", "code.exe"]);
    assert!(!merge_entries(&mut draft, &rec));
    assert!(!merge_entries(&mut draft, &Vec::new()));
}

#[test]
fn unchanged_edits_keep_a_stored_failure() {
    let mut draft = draft_with(&["a.exe"]);
    stored_failure(&mut draft, "volume_step");
    assert!(!add_entry(&mut draft, "a.exe"));
    assert!(draft.error().is_some());
    assert!(add_entry(&mut draft, "b"));
    assert!(draft.error().is_none());
}

#[test]
fn appearance_choices_edit_only_the_matching_field() {
    let mut draft = SettingsDraft::new(Config::default());
    assert!(apply_appearance_choice(&mut draft, ID_COMBO_THEME, 2));
    assert_eq!(draft.current().appearance.theme, ThemeMode::Dark);
    assert!(apply_appearance_choice(&mut draft, ID_COMBO_ACCENT, 3));
    assert_eq!(draft.current().appearance.accent, AccentMode::Purple);
    assert_eq!(draft.current().appearance.material, MaterialMode::Auto);
    assert_eq!(draft.current().appearance.motion, MotionMode::Full);
    assert!(!apply_appearance_choice(&mut draft, ID_COMBO_MODIFIER, 1));
    assert_eq!(draft.current().modifier, HotkeyModifier::CtrlAlt);
    assert!(draft.is_dirty());
}

#[test]
fn editing_a_field_drops_only_its_own_failure() {
    let mut draft = SettingsDraft::new(Config::default());
    stored_failure(&mut draft, "volume_step");
    assert!(!clear_field_error(&mut draft, "overlay_duration_ms"));
    assert!(draft.error().is_some());
    assert!(clear_field_error(&mut draft, "volume_step"));
    assert!(draft.error().is_none());
    assert_eq!(draft.current(), &Config::default());
}

fn values_of(cfg: &Config) -> ControlValues {
    ControlValues {
        volume_step: cfg.volume_step,
        volume_step_large: cfg.volume_step_large,
        overlay_duration_ms: cfg.overlay_duration_ms,
        modifier: cfg.modifier,
        theme: cfg.appearance.theme,
        material: cfg.appearance.material,
        motion: cfg.appearance.motion,
        accent: cfg.appearance.accent,
        beep_enabled: cfg.beep.enabled,
        blocked_freq: cfg.beep.blocked_freq,
        blocked_duration_ms: cfg.beep.blocked_duration_ms,
        limit_freq: cfg.beep.limit_freq,
        limit_duration_ms: cfg.beep.limit_duration_ms,
        blacklist: cfg.blacklist.clone(),
    }
}

#[test]
fn save_is_disabled_when_the_draft_is_clean_and_tracks_edits() {
    let draft = SettingsDraft::new(Config::default());
    let mut values = values_of(&Config::default());
    assert!(!apply_enabled(&draft, &values));
    values.volume_step = 3;
    assert!(apply_enabled(&draft, &values));
    let mut dirty = SettingsDraft::new(Config::default());
    let mut edited = Config::default();
    edited.volume_step = 4;
    dirty.set_current(edited.clone());
    assert!(apply_enabled(&dirty, &values_of(&edited)));
}

#[test]
fn inline_errors_show_only_for_the_active_section_and_field() {
    let e = ConfigValidationError { field: "volume_step", message: "x".into() };
    assert!(inline_error_visible("volume_step", Section::General, Some(&e)));
    assert!(!inline_error_visible("volume_step", Section::Feedback, Some(&e)));
    assert!(!inline_error_visible("volume_step_large", Section::General, Some(&e)));
    assert!(!inline_error_visible("volume_step", Section::General, None));
}

#[test]
fn status_line_exposes_status_and_alert_semantics_for_screen_readers() {
    assert_eq!(status_announcement(StatusKind::Clear, ""), "", "no status yet, no announcement");

    // A failed apply reports the failure as an alert...
    let mut draft = SettingsDraft::new(Config::default());
    let mut invalid = Config::default();
    invalid.volume_step = 30;
    invalid.volume_step_large = 29;
    draft.set_current(invalid);
    let result = draft.commit_with(|c| prepare_save(c, Platform::Windows));
    let fb = apply_feedback(&result, "");
    assert_eq!(fb.kind, StatusKind::Error);
    assert_eq!(
        status_announcement(fb.kind, &fb.text),
        "Alert: volume_step_large: must be greater than volume_step"
    );
    // ...while the visible status line keeps the plain text.
    assert_eq!(fb.text, "volume_step_large: must be greater than volume_step");
    assert_eq!(fb.focus_section, Some(Section::General));

    // A successful apply reports the saved note as a status.
    let fb = apply_feedback(&Ok(Config::default()), "");
    assert_eq!(fb.kind, StatusKind::Info);
    assert_eq!(status_announcement(fb.kind, &fb.text), "Status: Changes saved.");
    assert_eq!(fb.text, "Changes saved.");
}

#[test]
fn statics_are_colored_by_role() {
    assert_eq!(static_tone(ID_ST_STATUS, StatusKind::Error), TextTone::Error);
    assert_eq!(static_tone(ID_ST_STATUS, StatusKind::Info), TextTone::Secondary);
    assert_eq!(static_tone(ID_ERR_VOL_STEP, StatusKind::Clear), TextTone::Error);
    assert_eq!(static_tone(ID_ERR_LIMIT_DUR, StatusKind::Clear), TextTone::Error);
    assert_eq!(static_tone(ID_HDR_GENERAL, StatusKind::Clear), TextTone::Primary);
    assert_eq!(static_tone(ID_HDR_STORAGE, StatusKind::Error), TextTone::Primary);
    assert_eq!(static_tone(ID_LBL_THEME, StatusKind::Error), TextTone::Secondary);
}

#[test]
fn apply_results_are_reported_with_focus_for_validation_failures() {
    let ok: Result<Config, ConfigError> = Ok(Config::default());
    let fb = apply_feedback(&ok, "");
    assert_eq!(fb.kind, StatusKind::Info);
    assert_eq!(fb.text, "Changes saved.");
    assert_eq!(fb.focus_field, None);

    let invalid: Result<Config, ConfigError> = Err(ConfigError::Validation(ConfigValidationError {
        field: "beep.limit_freq",
        message: "must be between 37 and 32767".into(),
    }));
    let fb = apply_feedback(&invalid, "");
    assert_eq!(fb.kind, StatusKind::Error);
    assert_eq!(fb.text, "beep.limit_freq: must be between 37 and 32767");
    assert_eq!(fb.focus_field, Some("beep.limit_freq"));
    assert_eq!(fb.focus_section, Some(Section::Feedback));

    let io: Result<Config, ConfigError> =
        Err(ConfigError::Io(std::io::Error::new(std::io::ErrorKind::Other, "disk full")));
    let fb = apply_feedback(&io, "disk full");
    assert_eq!(fb.kind, StatusKind::Error);
    assert_eq!(fb.text, "Could not save config: disk full");
    assert_eq!(fb.focus_section, None);
}

#[test]
fn tab_cycle_is_rail_section_footer_close_and_follows_the_selection() {
    let general = vec![100, 101, 102];
    let hotkeys = vec![103];
    let footer = [121, 122, 120, 123];
    assert_eq!(tab_cycle(1, &general, footer), vec![1, 100, 101, 102, 121, 122, 120, 123]);
    assert_eq!(tab_cycle(1, &hotkeys, footer), vec![1, 103, 121, 122, 120, 123]);
    assert_eq!(tab_cycle(1, &Vec::new(), footer), vec![1, 121, 122, 120, 123]);
}

#[test]
fn window_events_map_to_host_intents_draft_edits_and_navigation() {
    let r = |narrow: bool, ev: SettingsEvent| settings_reaction(narrow, Section::Appearance, ev);
    assert_eq!(r(false, SettingsEvent::Clicked(ID_BTN_APPLY)), SettingsReaction::Apply);
    assert_eq!(r(false, SettingsEvent::Clicked(ID_BTN_CLOSE)), SettingsReaction::Close);
    assert_eq!(r(false, SettingsEvent::Clicked(ID_BTN_BLACKLIST_ADD)), SettingsReaction::AddTypedEntry);
    assert_eq!(r(false, SettingsEvent::Clicked(ID_CHK_BEEP)), SettingsReaction::RefreshSave);
    assert_eq!(r(false, SettingsEvent::Clicked(9999)), SettingsReaction::Unhandled);
    assert_eq!(
        r(false, SettingsEvent::ComboChanged(ID_COMBO_ACCENT)),
        SettingsReaction::ApplyAppearance(ID_COMBO_ACCENT)
    );
    assert_eq!(
        r(false, SettingsEvent::ComboChanged(ID_COMBO_THEME)),
        SettingsReaction::ApplyAppearance(ID_COMBO_THEME)
    );
    assert_eq!(r(false, SettingsEvent::ComboChanged(ID_COMBO_MODIFIER)), SettingsReaction::RefreshSave);
    assert_eq!(
        r(false, SettingsEvent::EditChanged(ID_OVERLAY_MS)),
        SettingsReaction::ClearFieldError("overlay_duration_ms")
    );
    assert_eq!(r(false, SettingsEvent::Key(NavKey::Escape)), SettingsReaction::Close);
    assert_eq!(r(true, SettingsEvent::Key(NavKey::Enter)), SettingsReaction::FocusSection);
    assert_eq!(r(false, SettingsEvent::Key(NavKey::Up)), SettingsReaction::SelectSection(Section::Hotkeys));
    assert_eq!(r(false, SettingsEvent::Key(NavKey::Down)), SettingsReaction::SelectSection(Section::Blacklist));
    assert_eq!(r(false, SettingsEvent::Key(NavKey::Left)), SettingsReaction::Unhandled);
    assert_eq!(r(true, SettingsEvent::Key(NavKey::Right)), SettingsReaction::SelectSection(Section::Blacklist));
    assert_eq!(r(true, SettingsEvent::Key(NavKey::Up)), SettingsReaction::Unhandled);
    assert_eq!(
        settings_reaction(false, Section::General, SettingsEvent::Key(NavKey::Up)),
        SettingsReaction::SelectSection(Section::Storage)
    );
}
