use volumectl::config::{
    app_suffix, blacklist_entry_for, configs_equal, normalize, validate, Config, ConfigValidationError, HotkeyBindings,
    Platform,
};
use volumectl::wheel::HotkeyAction;

fn failing_field(mutate: impl FnOnce(&mut Config)) -> (&'static str, String) {
    let mut cfg = Config::default();
    mutate(&mut cfg);
    let e = validate(&cfg).expect_err("config must be refused");
    (e.field, e.message)
}

#[test]
fn default_config_passes_strict_validation() {
    let cfg = Config::default();
    assert!(validate(&cfg).is_ok());
    assert_eq!(cfg.volume_step, 1);
    assert_eq!(cfg.volume_step_large, 10);
    assert_eq!(cfg.overlay_duration_ms, 1800);
    assert_eq!(cfg.color_thresholds.green_up_to, 40);
    assert_eq!(cfg.color_thresholds.blue_up_to, 75);
    assert_eq!(cfg.color_thresholds.orange_up_to, 100);
    assert!(cfg.beep.enabled);
    assert_eq!(cfg.beep.blocked_freq, 400);
}

#[test]
fn every_check_names_its_field() {
    assert_eq!(failing_field(|c| c.volume_step = 0).0, "volume_step");
    assert_eq!(failing_field(|c| c.volume_step = 51).0, "volume_step");
    assert_eq!(failing_field(|c| c.volume_step_large = 60).0, "volume_step_large");
    assert_eq!(
        failing_field(|c| c.volume_step_large = c.volume_step),
        ("volume_step_large", "must be greater than volume_step".to_string())
    );
    assert_eq!(failing_field(|c| c.overlay_duration_ms = 199).0, "overlay_duration_ms");
    assert_eq!(failing_field(|c| c.overlay_duration_ms = 10001).0, "overlay_duration_ms");
    assert_eq!(failing_field(|c| c.beep.blocked_freq = 36).0, "beep.blocked_freq");
    assert_eq!(failing_field(|c| c.beep.blocked_duration_ms = 9).0, "beep.blocked_duration_ms");
    assert_eq!(failing_field(|c| c.beep.limit_freq = 32768).0, "beep.limit_freq");
    assert_eq!(failing_field(|c| c.beep.limit_duration_ms = 2001).0, "beep.limit_duration_ms");
    assert_eq!(
        failing_field(|c| c.color_thresholds.green_up_to = 80).0,
        "color_thresholds.green_up_to"
    );
    assert_eq!(
        failing_field(|c| c.color_thresholds.blue_up_to = 101).0,
        "color_thresholds.blue_up_to"
    );
    assert_eq!(
        failing_field(|c| c.color_thresholds.orange_up_to = 120).0,
        "color_thresholds.orange_up_to"
    );
}

#[test]
fn checks_run_in_field_order() {
    let (field, _) = failing_field(|c| {
        c.volume_step = 0;
        c.beep.limit_freq = 1;
    });
    assert_eq!(field, "volume_step");
}

#[test]
fn bounds_are_inclusive() {
    let mut cfg = Config::default();
    cfg.volume_step = 1;
    cfg.volume_step_large = 50;
    cfg.overlay_duration_ms = 200;
    cfg.beep.blocked_freq = 37;
    cfg.beep.limit_freq = 32767;
    cfg.beep.blocked_duration_ms = 10;
    cfg.beep.limit_duration_ms = 2000;
    assert!(validate(&cfg).is_ok());
}

#[test]
fn validation_error_text_is_field_colon_message() {
    let e = ConfigValidationError { field: "volume_step", message: "must be between 1 and 50".into() };
    assert_eq!(e.to_text(), "volume_step: must be between 1 and 50");
}

#[test]
fn normalize_trims_lowercases_filters_and_dedupes_the_blacklist() {
    let mut cfg = Config::default();
    cfg.blacklist = vec![
        "  Chrome.EXE ".to_string(),
        "chrome.exe".to_string(),
        "readme".to_string(),
        "Code.exe".to_string(),
    ];
    let out = normalize(cfg.clone(), Platform::Windows);
    assert_eq!(out.blacklist, vec!["chrome.exe".to_string(), "code.exe".to_string()]);
    assert_eq!(out.volume_step, cfg.volume_step);
    assert_eq!(out.appearance, cfg.appearance);
    // Normalizing twice changes nothing more.
    assert_eq!(normalize(out.clone(), Platform::Windows), out);
}

#[test]
fn clone_and_equality_agree() {
    let mut cfg = Config::default();
    cfg.blacklist.push("a.exe".into());
    let copy = cfg.clone();
    assert!(configs_equal(&cfg, &copy));
    let mut other = copy.clone();
    other.blacklist.push("b.exe".into());
    assert!(!configs_equal(&cfg, &other));
}

#[test]
fn default_hotkeys_bind_every_action_on_ctrl_alt() {
    let cfg = Config::default();
    let bindings = cfg.hotkeys.as_ref().expect("default config records shortcuts");
    assert_eq!(bindings, &HotkeyBindings::default());
    assert_eq!(bindings.binding(HotkeyAction::VolumeUp), Some("Ctrl+Alt+ArrowUp"));
    assert_eq!(bindings.binding(HotkeyAction::VolumeDownLarge), Some("Ctrl+Alt+Shift+ArrowDown"));
    assert_eq!(bindings.binding(HotkeyAction::ToggleMute), Some("Ctrl+Alt+KeyM"));
    assert_eq!(bindings.binding(HotkeyAction::Reset50), Some("Ctrl+Alt+KeyR"));
    assert_eq!(bindings.binding(HotkeyAction::OpenMixer), Some("Ctrl+Alt+KeyV"));
    assert_eq!(bindings.binding(HotkeyAction::OpenMenu), Some("Ctrl+Alt+Shift+KeyM"));
}

#[test]
fn an_empty_binding_disables_only_that_action() {
    let bindings = HotkeyBindings { toggle_mute: String::new(), ..HotkeyBindings::default() };
    assert_eq!(bindings.binding(HotkeyAction::ToggleMute), None);
    assert_eq!(bindings.binding(HotkeyAction::VolumeUp), Some("Ctrl+Alt+ArrowUp"));
}

#[test]
fn hotkeys_take_part_in_clone_and_equality() {
    let mut cfg = Config::default();
    cfg.hotkeys = Some(HotkeyBindings { toggle_mute: "Ctrl+Shift+KeyU".into(), ..HotkeyBindings::default() });
    let copy = cfg.clone();
    assert_eq!(copy.hotkeys, cfg.hotkeys);
    assert!(configs_equal(&cfg, &copy));
    assert!(!configs_equal(&cfg, &Config::default()));
    let mut none = Config::default();
    none.hotkeys = None;
    assert!(!configs_equal(&none, &Config::default()));
    // Validation and normalization keep the recorded shortcuts.
    assert!(validate(&cfg).is_ok());
    assert_eq!(normalize(cfg.clone(), Platform::Windows).hotkeys, cfg.hotkeys);
}

fn entries(list: &[&str]) -> Config {
    let mut cfg = Config::default();
    cfg.blacklist = list.iter().map(|s| s.to_string()).collect();
    cfg
}

#[test]
fn normalization_keeps_the_platforms_application_names() {
    let typed = [" Code.EXE ", "code.app", "Code", "notepad++.exe", "", "code.exe"];
    assert_eq!(
        normalize(entries(&typed), Platform::Windows).blacklist,
        vec!["code.exe", "notepad++.exe"]
    );
    assert_eq!(normalize(entries(&typed), Platform::MacOs).blacklist, vec!["code.app"]);
    assert_eq!(
        normalize(entries(&typed), Platform::Linux).blacklist,
        vec!["code.exe", "code.app", "code", "notepad++.exe"]
    );
    assert_eq!(app_suffix(Platform::Windows), ".exe");
    assert_eq!(app_suffix(Platform::MacOs), ".app");
    assert_eq!(app_suffix(Platform::Linux), "");
}

#[test]
fn update_settings_blacklist_replace_normalizes_entries() {
    for (platform, expected) in [
        (Platform::Windows, vec!["code.exe", "notepad++.exe"]),
        (Platform::MacOs, vec!["code.app", "notepad++.app"]),
        (Platform::Linux, vec!["code", "notepad++"]),
    ] {
        let mut cfg = Config::default();
        cfg.blacklist = [" Code ", "notepad++"]
            .iter()
            .map(|raw| blacklist_entry_for(raw, platform))
            .collect();
        assert_eq!(normalize(cfg, platform).blacklist, expected, "{platform:?}");
    }
    assert_eq!(blacklist_entry_for("   ", Platform::MacOs), "");
    assert_eq!(blacklist_entry_for("Safari.APP", Platform::MacOs), "safari.app");
}
