use volumectl::config::{
    Platform, normalize, prepare_save, validate, Config, ConfigError, ConfigValidationError};
use volumectl::ui::draft::SettingsDraft;

fn valid_config() -> Config {
    Config::default()
}

fn invalid_config() -> Config {
    let mut cfg = Config::default();
    cfg.volume_step = 30;
    cfg.volume_step_large = 29;
    cfg
}

fn different_baseline() -> Config {
    let mut cfg = Config::default();
    cfg.overlay_duration_ms = 3000;
    cfg
}

/// Store a stale validation failure in the draft the way a refused commit
/// does, without touching the working copy.
fn plant_stale_error(draft: &mut SettingsDraft, field: &'static str) {
    let _ = draft.commit_with(move |_| {
        Err(ConfigError::Validation(ConfigValidationError { field, message: "stale".into() }))
    });
    assert_eq!(draft.error().map(|e| e.field), Some(field));
}

#[test]
fn new_is_clean_with_matching_original_and_current() {
    let config = valid_config();
    let draft = SettingsDraft::new(config.clone());

    assert_eq!(draft.original(), &config);
    assert_eq!(draft.current(), &config);
    assert!(!draft.is_dirty());
    assert!(draft.error().is_none());
    assert!(draft.validate().is_ok());
}

#[test]
fn editing_current_marks_dirty_and_reset_clears_it() {
    let mut draft = SettingsDraft::new(valid_config());
    let mut edited = valid_config();
    edited.volume_step = 5;

    draft.set_current(edited.clone());
    assert!(draft.is_dirty());
    assert_eq!(draft.current(), &edited);

    draft.reset();
    assert!(!draft.is_dirty());
    assert_eq!(draft.current(), draft.original());
    assert!(draft.error().is_none());
}

#[test]
fn cancel_discards_edits_and_clears_error_like_reset() {
    let mut draft = SettingsDraft::new(valid_config());
    let mut edited = valid_config();
    edited.volume_step = 5;
    draft.set_current(edited);
    plant_stale_error(&mut draft, "volume_step");

    draft.cancel();

    assert!(!draft.is_dirty());
    assert_eq!(draft.current(), draft.original());
    assert!(draft.error().is_none());
}

#[test]
fn replace_adopts_baseline_and_recomputes_dirty() {
    let mut draft = SettingsDraft::new(valid_config());
    let mut edited = valid_config();
    edited.volume_step = 5;
    draft.set_current(edited.clone());

    draft.replace(different_baseline());
    assert_eq!(draft.original(), &different_baseline());
    assert_eq!(draft.current(), &edited);
    assert!(draft.is_dirty());

    draft.replace(edited.clone());
    assert_eq!(draft.original(), &edited);
    assert!(!draft.is_dirty());
}

#[test]
fn replace_clears_stale_validation_error() {
    let mut draft = SettingsDraft::new(valid_config());
    draft.set_current(invalid_config());
    plant_stale_error(&mut draft, "volume_step_large");

    draft.replace(different_baseline());

    assert!(draft.error().is_none());
}

#[test]
fn validate_reports_field_specific_error_for_invalid_current() {
    let mut draft = SettingsDraft::new(valid_config());
    draft.set_current(invalid_config());

    let error = draft.validate().expect_err("invalid config must fail");

    assert_eq!(error.field, "volume_step_large");
}

#[test]
fn validate_is_ok_for_valid_current() {
    let mut draft = SettingsDraft::new(valid_config());
    let mut edited = valid_config();
    edited.volume_step = 5;
    draft.set_current(edited);

    assert!(draft.validate().is_ok());
}

#[test]
fn commit_success_adopts_saved_config_and_clears_dirty() {
    let mut draft = SettingsDraft::new(valid_config());
    let mut edited = valid_config();
    edited.volume_step = 5;
    draft.set_current(edited);
    assert!(draft.is_dirty());

    let saved = draft
        .commit_with(|cfg| {
            validate(cfg).map_err(ConfigError::Validation)?;
            Ok(normalize(cfg.clone(), Platform::Windows))
        })
        .expect("valid config persists");

    assert_eq!(saved.volume_step, 5);
    assert_eq!(draft.original(), &saved);
    assert_eq!(draft.current(), &saved);
    assert!(!draft.is_dirty());
    assert!(draft.error().is_none());
}

#[test]
fn commit_success_adopts_the_returned_normalized_config() {
    let mut draft = SettingsDraft::new(valid_config());
    let mut edited = valid_config();
    edited.blacklist.push("  Chrome.EXE  ".into());
    draft.set_current(edited);

    let saved = draft
        .commit_with(|cfg| {
            validate(cfg).map_err(ConfigError::Validation)?;
            Ok(normalize(cfg.clone(), Platform::Windows))
        })
        .expect("valid config persists");

    assert_eq!(saved.blacklist, vec!["chrome.exe".to_string()]);
    assert_eq!(draft.current(), &saved);
    assert!(!draft.is_dirty());
}

#[test]
fn commit_validation_failure_keeps_edits_and_sets_error() {
    let mut draft = SettingsDraft::new(valid_config());
    draft.set_current(invalid_config());
    let before = draft.current().clone();

    let error = draft.commit_with(|c| prepare_save(c, Platform::Windows)).expect_err("invalid config must fail commit");

    assert!(matches!(error, ConfigError::Validation(_)));
    assert_eq!(draft.current(), &before, "edits stay intact");
    assert_eq!(draft.original(), &valid_config(), "baseline untouched");
    assert!(draft.is_dirty());
    let stored = draft.error().expect("validation error is stored");
    assert_eq!(stored.field, "volume_step_large");
}

#[test]
fn commit_io_failure_keeps_edits_and_returns_error_only() {
    let mut draft = SettingsDraft::new(valid_config());
    let mut edited = valid_config();
    edited.volume_step = 5;
    draft.set_current(edited.clone());
    plant_stale_error(&mut draft, "volume_step");
    let before = draft.current().clone();

    let error = draft
        .commit_with(|_| {
            Err(ConfigError::Io(std::io::Error::new(
                std::io::ErrorKind::Other,
                "simulated disk failure",
            )))
        })
        .expect_err("IO failure surfaces to the caller");

    assert!(matches!(error, ConfigError::Io(_)));
    assert_eq!(draft.current(), &before, "edits stay intact");
    assert_eq!(draft.original(), &valid_config(), "baseline untouched");
    assert!(draft.is_dirty());
    assert!(draft.error().is_none(), "IO errors are returned, not stored");
}

#[test]
fn commit_serialization_failure_keeps_edits() {
    let mut draft = SettingsDraft::new(valid_config());
    let mut edited = valid_config();
    edited.volume_step = 5;
    draft.set_current(edited.clone());

    let error = draft
        .commit_with(|_| {
            Err(ConfigError::Serialization(serde_json::Error::io(std::io::Error::new(
                std::io::ErrorKind::Other,
                "simulated encode failure",
            ))))
        })
        .expect_err("serialization failure surfaces to the caller");

    assert!(matches!(error, ConfigError::Serialization(_)));
    assert_eq!(draft.current(), &edited);
    assert!(draft.is_dirty());
    assert!(draft.error().is_none());
}

#[test]
fn prepare_save_normalizes_valid_configs() {
    let mut cfg = valid_config();
    cfg.blacklist = vec![
        "  Code.EXE ".to_string(),
        "notes.txt".to_string(),
        "code.exe".to_string(),
    ];
    let saved = prepare_save(&cfg, Platform::Windows).expect("valid config");
    assert_eq!(saved.blacklist, vec!["code.exe".to_string()]);
    assert_eq!(saved.volume_step, cfg.volume_step);
}

#[test]
fn cloning_a_draft_keeps_baseline_edits_and_stored_failure() {
    let mut draft = SettingsDraft::new(valid_config());
    draft.set_current(invalid_config());
    let _ = draft.commit_with(|c| prepare_save(c, Platform::Windows));
    let copy = draft.clone();
    assert_eq!(copy, draft);
    assert_eq!(copy.error().map(|e| e.field), Some("volume_step_large"));
    assert!(copy.is_dirty());
}

#[test]
fn stored_failure_follows_the_last_commit_and_baseline_moves_only_on_replace_or_save() {
    let mut draft = SettingsDraft::new(valid_config());
    draft.set_current(invalid_config());
    let _ = draft.commit_with(|c| prepare_save(c, Platform::Windows));
    assert!(draft.validate().is_err());
    // validate changes nothing: the refused commit's failure is still stored.
    assert_eq!(draft.error().map(|e| e.field), Some("volume_step_large"));
    assert_eq!(draft.original(), &valid_config());
    // A failed save clears the failure but keeps the baseline.
    let mut edited = valid_config();
    edited.volume_step = 5;
    draft.set_current(edited.clone());
    let _ = draft.commit_with(|_| {
        Err(ConfigError::Io(std::io::Error::new(std::io::ErrorKind::Other, "disk")))
    });
    assert!(draft.error().is_none());
    assert_eq!(draft.original(), &valid_config());
    // Reset and cancel never move the baseline; replace and a save do.
    draft.reset();
    assert_eq!(draft.original(), &valid_config());
    draft.replace(different_baseline());
    assert_eq!(draft.original(), &different_baseline());
    draft.set_current(edited.clone());
    let saved = draft.commit_with(|c| prepare_save(c, Platform::Windows)).expect("valid edits save");
    assert_eq!(draft.original(), &saved);
    assert!(draft.error().is_none());
}
