//! The configuration model: the persisted settings, their defaults, strict
//! validation (field-specific errors in a fixed order), and normalization
//! of the blacklist.
//!
//! Reading and writing the file is the host's job; this module only decides
//! what a configuration means and whether it is acceptable.

use vstd::prelude::*;
use crate::text::{ends_with, lowercase_of, str_ends_with, to_lowercase, trim_white_space, trimmed};
use crate::ui::model::{AccentMode, MaterialMode, MotionMode, ThemeMode};
use crate::wheel::HotkeyAction;

verus! {

broadcast use vstd::string::group_string_axioms;

/// The modifier combination the custom shortcuts use.
#[derive(Debug, Clone, Copy, PartialEq, Eq, Hash, Structural)]
pub enum HotkeyModifier {
    CtrlAlt,
    CapsLock,
    Alt,
    Ctrl,
}

impl Default for HotkeyModifier {
    fn default() -> (r: Self)
        ensures
            r == HotkeyModifier::CtrlAlt,
    {
        HotkeyModifier::CtrlAlt
    }
}

/// Upper bounds (inclusive, in percent) of the green, blue and orange
/// volume-legend bands.
#[derive(Debug, Clone, Copy, PartialEq, Eq, Structural)]
pub struct ColorThresholds {
    pub green_up_to: u8,
    pub blue_up_to: u8,
    pub orange_up_to: u8,
}

impl Default for ColorThresholds {
    fn default() -> (r: Self)
        ensures
            r == (ColorThresholds { green_up_to: 40, blue_up_to: 75, orange_up_to: 100 }),
    {
        ColorThresholds { green_up_to: 40, blue_up_to: 75, orange_up_to: 100 }
    }
}

/// Appearance preferences.
#[derive(Debug, Clone, Copy, PartialEq, Eq, Structural)]
pub struct AppearanceConfig {
    pub theme: ThemeMode,
    pub material: MaterialMode,
    pub motion: MotionMode,
    pub accent: AccentMode,
}

impl Default for AppearanceConfig {
    fn default() -> (r: Self)
        ensures
            r == (AppearanceConfig {
                theme: ThemeMode::System,
                material: MaterialMode::Auto,
                motion: MotionMode::Full,
                accent: AccentMode::System,
            }),
    {
        AppearanceConfig {
            theme: ThemeMode::System,
            material: MaterialMode::Auto,
            motion: MotionMode::Full,
            accent: AccentMode::System,
        }
    }
}

/// Beep feedback for blocked and limit actions.
#[derive(Debug, Clone, Copy, PartialEq, Eq, Structural)]
pub struct BeepConfig {
    pub enabled: bool,
    pub blocked_freq: u32,
    pub blocked_duration_ms: u32,
    pub limit_freq: u32,
    pub limit_duration_ms: u32,
}

impl Default for BeepConfig {
    fn default() -> (r: Self)
        ensures
            r == (BeepConfig {
                enabled: true,
                blocked_freq: 400,
                blocked_duration_ms: 80,
                limit_freq: 600,
                limit_duration_ms: 60,
            }),
    {
        BeepConfig {
            enabled: true,
            blocked_freq: 400,
            blocked_duration_ms: 80,
            limit_freq: 600,
            limit_duration_ms: 60,
        }
    }
}

/// The recorded shortcut of each hotkey action, such as
/// `Ctrl+Alt+ArrowUp`. An empty binding disables only that action.
#[derive(Debug, PartialEq, Eq)]
pub struct HotkeyBindings {
    pub volume_up: String,
    pub volume_down: String,
    pub volume_up_large: String,
    pub volume_down_large: String,
    pub toggle_mute: String,
    pub reset_50: String,
    pub open_mixer: String,
    pub open_menu: String,
}

/// The bindings' characters in action order: volume up, volume down, large
/// up, large down, toggle mute, reset to 50%, open mixer, open menu.
pub open spec fn bindings_view(b: HotkeyBindings) -> Seq<Seq<char>> {
    seq![
        b.volume_up@,
        b.volume_down@,
        b.volume_up_large@,
        b.volume_down_large@,
        b.toggle_mute@,
        b.reset_50@,
        b.open_mixer@,
        b.open_menu@,
    ]
}

/// The position of an action in [`bindings_view`].
pub open spec fn action_slot(action: HotkeyAction) -> int {
    match action {
        HotkeyAction::VolumeUp => 0,
        HotkeyAction::VolumeDown => 1,
        HotkeyAction::VolumeUpLarge => 2,
        HotkeyAction::VolumeDownLarge => 3,
        HotkeyAction::ToggleMute => 4,
        HotkeyAction::Reset50 => 5,
        HotkeyAction::OpenMixer => 6,
        HotkeyAction::OpenMenu => 7,
    }
}

/// The default bindings: every action on the `Ctrl+Alt` modifier.
pub open spec fn default_bindings() -> Seq<Seq<char>> {
    seq![
        "Ctrl+Alt+ArrowUp"@,
        "Ctrl+Alt+ArrowDown"@,
        "Ctrl+Alt+Shift+ArrowUp"@,
        "Ctrl+Alt+Shift+ArrowDown"@,
        "Ctrl+Alt+KeyM"@,
        "Ctrl+Alt+KeyR"@,
        "Ctrl+Alt+KeyV"@,
        "Ctrl+Alt+Shift+KeyM"@,
    ]
}

impl Default for HotkeyBindings {
    fn default() -> (r: Self)
        ensures
            bindings_view(r) == default_bindings(),
    {
        HotkeyBindings {
            volume_up: String::from_str("Ctrl+Alt+ArrowUp"),
            volume_down: String::from_str("Ctrl+Alt+ArrowDown"),
            volume_up_large: String::from_str("Ctrl+Alt+Shift+ArrowUp"),
            volume_down_large: String::from_str("Ctrl+Alt+Shift+ArrowDown"),
            toggle_mute: String::from_str("Ctrl+Alt+KeyM"),
            reset_50: String::from_str("Ctrl+Alt+KeyR"),
            open_mixer: String::from_str("Ctrl+Alt+KeyV"),
            open_menu: String::from_str("Ctrl+Alt+Shift+KeyM"),
        }
    }
}

impl Clone for HotkeyBindings {
    fn clone(&self) -> (r: Self)
        ensures
            bindings_view(r) == bindings_view(*self),
    {
        HotkeyBindings {
            volume_up: self.volume_up.clone(),
            volume_down: self.volume_down.clone(),
            volume_up_large: self.volume_up_large.clone(),
            volume_down_large: self.volume_down_large.clone(),
            toggle_mute: self.toggle_mute.clone(),
            reset_50: self.reset_50.clone(),
            open_mixer: self.open_mixer.clone(),
            open_menu: self.open_menu.clone(),
        }
    }
}

impl HotkeyBindings {
    /// The shortcut bound to `action`, or `None` when its binding is empty
    /// (the action is disabled).
    pub fn binding(&self, action: HotkeyAction) -> (r: Option<&str>)
        ensures
            match r {
                Some(b) => b@ == bindings_view(*self)[action_slot(action)] && b@.len() > 0,
                None => bindings_view(*self)[action_slot(action)].len() == 0,
            },
    {
        let b: &str = match action {
            HotkeyAction::VolumeUp => self.volume_up.as_str(),
            HotkeyAction::VolumeDown => self.volume_down.as_str(),
            HotkeyAction::VolumeUpLarge => self.volume_up_large.as_str(),
            HotkeyAction::VolumeDownLarge => self.volume_down_large.as_str(),
            HotkeyAction::ToggleMute => self.toggle_mute.as_str(),
            HotkeyAction::Reset50 => self.reset_50.as_str(),
            HotkeyAction::OpenMixer => self.open_mixer.as_str(),
            HotkeyAction::OpenMenu => self.open_menu.as_str(),
        };
        if b.unicode_len() == 0 {
            None
        } else {
            Some(b)
        }
    }
}

fn clone_bindings(b: &Option<HotkeyBindings>) -> (r: Option<HotkeyBindings>)
    ensures
        optional_bindings_view(r) == optional_bindings_view(*b),
{
    match b {
        Some(b) => Some(b.clone()),
        None => None,
    }
}

/// The bindings' characters, when bindings are recorded.
pub open spec fn optional_bindings_view(b: Option<HotkeyBindings>) -> Option<Seq<Seq<char>>> {
    match b {
        Some(b) => Some(bindings_view(b)),
        None => None,
    }
}

fn bindings_equal(a: &Option<HotkeyBindings>, b: &Option<HotkeyBindings>) -> (r: bool)
    ensures
        r == (optional_bindings_view(*a) == optional_bindings_view(*b)),
{
    match (a, b) {
        (Some(x), Some(y)) => {
            let r = x.volume_up == y.volume_up && x.volume_down == y.volume_down
                && x.volume_up_large == y.volume_up_large && x.volume_down_large
                == y.volume_down_large && x.toggle_mute == y.toggle_mute && x.reset_50
                == y.reset_50 && x.open_mixer == y.open_mixer && x.open_menu == y.open_menu;
            proof {
                if !r {
                    let (vx, vy) = (bindings_view(*x), bindings_view(*y));
                    assert(vx[0] != vy[0] || vx[1] != vy[1] || vx[2] != vy[2] || vx[3] != vy[3]
                        || vx[4] != vy[4] || vx[5] != vy[5] || vx[6] != vy[6] || vx[7] != vy[7]);
                } else {
                    assert(bindings_view(*x) =~= bindings_view(*y));
                }
            }
            r
        },
        (None, None) => true,
        _ => false,
    }
}

/// The persisted application configuration.
#[derive(Debug, PartialEq, Eq)]
pub struct Config {
    /// Small volume step in percent (1..=50).
    pub volume_step: u32,
    /// Large (Shift) volume step in percent (1..=50, above `volume_step`).
    pub volume_step_large: u32,
    /// How long the overlay stays visible (200..=10000 ms).
    pub overlay_duration_ms: u64,
    /// Modifier used by the custom shortcuts.
    pub modifier: HotkeyModifier,
    /// Executable names excluded from the hotkeys.
    pub blacklist: Vec<String>,
    pub color_thresholds: ColorThresholds,
    pub appearance: AppearanceConfig,
    pub beep: BeepConfig,
    /// Start with the user session.
    pub autostart: bool,
    /// Recorded shortcuts, when the user has them.
    pub hotkeys: Option<HotkeyBindings>,
}

/// The mathematical value of a [`Config`]: every field as is, the blacklist
/// as a sequence of character sequences.
pub struct ConfigView {
    pub volume_step: u32,
    pub volume_step_large: u32,
    pub overlay_duration_ms: u64,
    pub modifier: HotkeyModifier,
    pub blacklist: Seq<Seq<char>>,
    pub color_thresholds: ColorThresholds,
    pub appearance: AppearanceConfig,
    pub beep: BeepConfig,
    pub autostart: bool,
    pub hotkeys: Option<Seq<Seq<char>>>,
}

/// The characters of each string of a vector.
pub open spec fn strings_view(v: Seq<String>) -> Seq<Seq<char>> {
    v.map_values(|s: String| s@)
}

impl View for Config {
    type V = ConfigView;

    open spec fn view(&self) -> ConfigView {
        ConfigView {
            volume_step: self.volume_step,
            volume_step_large: self.volume_step_large,
            overlay_duration_ms: self.overlay_duration_ms,
            modifier: self.modifier,
            blacklist: strings_view(self.blacklist@),
            color_thresholds: self.color_thresholds,
            appearance: self.appearance,
            beep: self.beep,
            autostart: self.autostart,
            hotkeys: optional_bindings_view(self.hotkeys),
        }
    }
}

/// The default configuration.
pub open spec fn default_config() -> ConfigView {
    ConfigView {
        volume_step: 1,
        volume_step_large: 10,
        overlay_duration_ms: 1800,
        modifier: HotkeyModifier::CtrlAlt,
        blacklist: Seq::empty(),
        color_thresholds: ColorThresholds { green_up_to: 40, blue_up_to: 75, orange_up_to: 100 },
        appearance: AppearanceConfig {
            theme: ThemeMode::System,
            material: MaterialMode::Auto,
            motion: MotionMode::Full,
            accent: AccentMode::System,
        },
        beep: BeepConfig {
            enabled: true,
            blocked_freq: 400,
            blocked_duration_ms: 80,
            limit_freq: 600,
            limit_duration_ms: 60,
        },
        autostart: false,
        hotkeys: Some(default_bindings()),
    }
}

impl Default for Config {
    fn default() -> (r: Self)
        ensures
            r@ == default_config(),
    {
        let blacklist: Vec<String> = Vec::new();
        let r = Config {
            volume_step: 1,
            volume_step_large: 10,
            overlay_duration_ms: 1800,
            modifier: HotkeyModifier::default(),
            blacklist,
            color_thresholds: ColorThresholds::default(),
            appearance: AppearanceConfig::default(),
            beep: BeepConfig::default(),
            autostart: false,
            hotkeys: Some(HotkeyBindings::default()),
        };
        assert(r@.blacklist =~= Seq::<Seq<char>>::empty());
        r
    }
}

/// A copy of a vector of strings with the same characters.
pub fn clone_strings(v: &Vec<String>) -> (r: Vec<String>)
    ensures
        strings_view(r@) == strings_view(v@),
{
    let r = v.clone();
    assert(strings_view(r@) =~= strings_view(v@)) by {
        assert forall|i: int| 0 <= i < r@.len() implies #[trigger] r@[i] == v@[i] by {
            assert(cloned::<String>(v[i], r[i]));
        }
    }
    r
}

impl Clone for Config {
    fn clone(&self) -> (r: Self)
        ensures
            r@ == self@,
    {
        Config {
            volume_step: self.volume_step,
            volume_step_large: self.volume_step_large,
            overlay_duration_ms: self.overlay_duration_ms,
            modifier: self.modifier,
            blacklist: clone_strings(&self.blacklist),
            color_thresholds: self.color_thresholds,
            appearance: self.appearance,
            beep: self.beep,
            autostart: self.autostart,
            hotkeys: clone_bindings(&self.hotkeys),
        }
    }
}

/// Whether two string vectors hold the same characters, element by element.
pub fn strings_equal(a: &Vec<String>, b: &Vec<String>) -> (r: bool)
    ensures
        r == (strings_view(a@) == strings_view(b@)),
{
    if a.len() != b.len() {
        proof {
            assert(strings_view(a@).len() != strings_view(b@).len());
        }
        return false;
    }
    let n = a.len();
    let mut i: usize = 0;
    while i < n
        invariant
            n == a.len(),
            n == b.len(),
            i <= n,
            forall|j: int| 0 <= j < i ==> a@[j]@ == b@[j]@,
        decreases n - i,
    {
        if a[i] != b[i] {
            proof {
                assert(strings_view(a@)[i as int] != strings_view(b@)[i as int]);
            }
            return false;
        }
        i = i + 1;
    }
    assert(strings_view(a@) =~= strings_view(b@));
    true
}

/// Whether two configurations have the same value.
pub fn configs_equal(a: &Config, b: &Config) -> (r: bool)
    ensures
        r == (a@ == b@),
{
    a.volume_step == b.volume_step && a.volume_step_large == b.volume_step_large
        && a.overlay_duration_ms == b.overlay_duration_ms && a.modifier == b.modifier
        && a.color_thresholds == b.color_thresholds && a.appearance == b.appearance && a.beep
        == b.beep && a.autostart == b.autostart && strings_equal(&a.blacklist, &b.blacklist)
        && bindings_equal(&a.hotkeys, &b.hotkeys)
}

/// A field-specific validation failure: the config field path and what is
/// wrong with it.
#[derive(Debug, PartialEq, Eq)]
pub struct ConfigValidationError {
    pub field: &'static str,
    pub message: String,
}

impl Clone for ConfigValidationError {
    fn clone(&self) -> (r: Self)
        ensures
            r == *self,
    {
        ConfigValidationError { field: self.field, message: self.message.clone() }
    }
}

/// `"<field>: <message>"`, the text shown to users.
pub open spec fn describe(field: Seq<char>, message: Seq<char>) -> Seq<char> {
    field + seq![':', ' '] + message
}

impl ConfigValidationError {
    /// The user-facing text of this failure, `"<field>: <message>"`.
    pub fn to_text(&self) -> (r: String)
        ensures
            r@ == describe(self.field@, self.message@),
    {
        let head = self.field.to_string();
        let head = head.concat(": ");
        let r = head.concat(self.message.as_str());
        proof {
            reveal_strlit(": ");
            assert(r@ =~= describe(self.field@, self.message@));
        }
        r
    }
}

/// `std::io::Error`, carried opaquely when writing the configuration fails.
#[verifier::external_type_specification]
#[verifier::external_body]
pub struct ExIoError(std::io::Error);

/// `serde_json::Error`, carried opaquely when encoding the configuration
/// fails.
#[verifier::external_type_specification]
#[verifier::external_body]
pub struct ExJsonError(serde_json::Error);

/// The ways persisting a configuration can fail.
#[derive(Debug)]
pub enum ConfigError {
    /// The configuration is not acceptable; nothing was written.
    Validation(ConfigValidationError),
    /// Writing the file failed.
    Io(std::io::Error),
    /// Encoding the configuration failed.
    Serialization(serde_json::Error),
}

/// A failure of the strict checks: the field path and the message.
pub struct Failure {
    pub field: Seq<char>,
    pub message: Seq<char>,
}

pub open spec fn fail(field: Seq<char>, message: Seq<char>) -> Option<Failure> {
    Some(Failure { field, message })
}

/// The first strict check a configuration fails, in the fixed order of the
/// fields (steps, overlay duration, beep frequencies and durations, legend
/// thresholds), or `None` when every check passes.
pub open spec fn first_failure(c: ConfigView) -> Option<Failure> {
    if !(1 <= c.volume_step <= 50) {
        fail("volume_step"@, "must be between 1 and 50"@)
    } else if !(1 <= c.volume_step_large <= 50) {
        fail("volume_step_large"@, "must be between 1 and 50"@)
    } else if c.volume_step_large <= c.volume_step {
        fail("volume_step_large"@, "must be greater than volume_step"@)
    } else if !(200 <= c.overlay_duration_ms <= 10000) {
        fail("overlay_duration_ms"@, "must be between 200 and 10000"@)
    } else if !(37 <= c.beep.blocked_freq <= 32767) {
        fail("beep.blocked_freq"@, "must be between 37 and 32767"@)
    } else if !(10 <= c.beep.blocked_duration_ms <= 2000) {
        fail("beep.blocked_duration_ms"@, "must be between 10 and 2000"@)
    } else if !(37 <= c.beep.limit_freq <= 32767) {
        fail("beep.limit_freq"@, "must be between 37 and 32767"@)
    } else if !(10 <= c.beep.limit_duration_ms <= 2000) {
        fail("beep.limit_duration_ms"@, "must be between 10 and 2000"@)
    } else if c.color_thresholds.green_up_to > c.color_thresholds.blue_up_to {
        fail("color_thresholds.green_up_to"@, "must not exceed blue_up_to"@)
    } else if c.color_thresholds.blue_up_to > c.color_thresholds.orange_up_to {
        fail("color_thresholds.blue_up_to"@, "must not exceed orange_up_to"@)
    } else if c.color_thresholds.orange_up_to > 100 {
        fail("color_thresholds.orange_up_to"@, "must not exceed 100"@)
    } else {
        None
    }
}

/// The configuration passes every strict check.
pub open spec fn is_valid(c: ConfigView) -> bool {
    first_failure(c) is None
}

fn reject(field: &'static str, message: &str) -> (r: Result<(), ConfigValidationError>)
    ensures
        r matches Err(e) && e.field == field && e.message@ == message@,
{
    Err(ConfigValidationError { field, message: message.to_string() })
}

/// Strictly validate a configuration. The error names the first failing
/// field in the fixed check order.
pub fn validate(cfg: &Config) -> (r: Result<(), ConfigValidationError>)
    ensures
        match r {
            Ok(()) => first_failure(cfg@) is None,
            Err(e) => first_failure(cfg@) == fail(e.field@, e.message@),
        },
        r is Ok <==> (1 <= cfg@.volume_step <= 50
            && 1 <= cfg@.volume_step_large <= 50
            && cfg@.volume_step < cfg@.volume_step_large
            && 200 <= cfg@.overlay_duration_ms <= 10000
            && 37 <= cfg@.beep.blocked_freq <= 32767
            && 10 <= cfg@.beep.blocked_duration_ms <= 2000
            && 37 <= cfg@.beep.limit_freq <= 32767
            && 10 <= cfg@.beep.limit_duration_ms <= 2000
            && cfg@.color_thresholds.green_up_to <= cfg@.color_thresholds.blue_up_to
            && cfg@.color_thresholds.blue_up_to <= cfg@.color_thresholds.orange_up_to
            && cfg@.color_thresholds.orange_up_to <= 100),
{
    proof {
        lemma_valid_iff_in_range(cfg@);
    }
    if !(1 <= cfg.volume_step && cfg.volume_step <= 50) {
        return reject("volume_step", "must be between 1 and 50");
    }
    if !(1 <= cfg.volume_step_large && cfg.volume_step_large <= 50) {
        return reject("volume_step_large", "must be between 1 and 50");
    }
    if cfg.volume_step_large <= cfg.volume_step {
        return reject("volume_step_large", "must be greater than volume_step");
    }
    if !(200 <= cfg.overlay_duration_ms && cfg.overlay_duration_ms <= 10000) {
        return reject("overlay_duration_ms", "must be between 200 and 10000");
    }
    if !(37 <= cfg.beep.blocked_freq && cfg.beep.blocked_freq <= 32767) {
        return reject("beep.blocked_freq", "must be between 37 and 32767");
    }
    if !(10 <= cfg.beep.blocked_duration_ms && cfg.beep.blocked_duration_ms <= 2000) {
        return reject("beep.blocked_duration_ms", "must be between 10 and 2000");
    }
    if !(37 <= cfg.beep.limit_freq && cfg.beep.limit_freq <= 32767) {
        return reject("beep.limit_freq", "must be between 37 and 32767");
    }
    if !(10 <= cfg.beep.limit_duration_ms && cfg.beep.limit_duration_ms <= 2000) {
        return reject("beep.limit_duration_ms", "must be between 10 and 2000");
    }
    if cfg.color_thresholds.green_up_to > cfg.color_thresholds.blue_up_to {
        return reject("color_thresholds.green_up_to", "must not exceed blue_up_to");
    }
    if cfg.color_thresholds.blue_up_to > cfg.color_thresholds.orange_up_to {
        return reject("color_thresholds.blue_up_to", "must not exceed orange_up_to");
    }
    if cfg.color_thresholds.orange_up_to > 100 {
        return reject("color_thresholds.orange_up_to", "must not exceed 100");
    }
    Ok(())
}

/// The default configuration passes every strict check.
pub proof fn lemma_default_config_is_valid()
    ensures
        is_valid(default_config()),
{
}

/// The normalized form of one blacklist entry: trimmed, then lowercased.
pub open spec fn entry_form(raw: Seq<char>) -> Seq<char> {
    lowercase_of(trimmed(raw))
}

/// The desktop platform the host runs on; it decides which application
/// names the blacklist holds.
#[derive(Debug, Clone, Copy, PartialEq, Eq, Structural)]
pub enum Platform {
    Windows,
    MacOs,
    Linux,
}

/// The application name suffix of a platform: `.exe` on Windows, `.app` on
/// macOS, none on Linux (bare process names).
pub open spec fn suffix_of(platform: Platform) -> Seq<char> {
    match platform {
        Platform::Windows => seq!['.', 'e', 'x', 'e'],
        Platform::MacOs => seq!['.', 'a', 'p', 'p'],
        Platform::Linux => Seq::empty(),
    }
}

/// The application name suffix of a platform.
pub fn app_suffix(platform: Platform) -> (r: &'static str)
    ensures
        r@ == suffix_of(platform),
{
    proof {
        reveal_strlit(".exe");
        reveal_strlit(".app");
        reveal_strlit("");
    }
    let r = match platform {
        Platform::Windows => ".exe",
        Platform::MacOs => ".app",
        Platform::Linux => "",
    };
    assert(r@ =~= suffix_of(platform));
    r
}

/// Whether a normalized entry names an application on the platform: it is
/// not empty and ends with the platform's suffix.
pub open spec fn is_app_name(e: Seq<char>, suffix: Seq<char>) -> bool {
    e.len() > 0 && ends_with(e, suffix)
}

/// The normalized blacklist: each entry in normalized form, keeping only
/// the entries that name an application on the platform (ending with
/// `suffix`), each at its first occurrence.
pub open spec fn normalized_blacklist(entries: Seq<Seq<char>>, suffix: Seq<char>) -> Seq<Seq<char>>
    decreases entries.len(),
{
    if entries.len() == 0 {
        Seq::empty()
    } else {
        let kept = normalized_blacklist(entries.drop_last(), suffix);
        let e = entry_form(entries.last());
        if is_app_name(e, suffix) && !kept.contains(e) {
            kept.push(e)
        } else {
            kept
        }
    }
}

/// What normalization makes of a configuration: the blacklist is
/// normalized, every other field is kept.
pub open spec fn normalized(c: ConfigView, platform: Platform) -> ConfigView {
    ConfigView { blacklist: normalized_blacklist(c.blacklist, suffix_of(platform)), ..c }
}

/// Whether `list` holds a string with the characters of `s`.
pub fn strings_contain(list: &Vec<String>, s: &String) -> (r: bool)
    ensures
        r == strings_view(list@).contains(s@),
{
    let n = list.len();
    let mut i: usize = 0;
    while i < n
        invariant
            n == list.len(),
            i <= n,
            forall|j: int| 0 <= j < i ==> list@[j]@ != s@,
        decreases n - i,
    {
        if list[i] == *s {
            proof {
                assert(strings_view(list@)[i as int] == s@);
            }
            return true;
        }
        i = i + 1;
    }
    proof {
        if strings_view(list@).contains(s@) {
            let k = choose|k: int| 0 <= k < strings_view(list@).len() && strings_view(list@)[k] == s@;
            assert(list@[k]@ == s@);
        }
    }
    false
}

/// Normalize the blacklist of a configuration for a platform: trim and
/// lowercase every entry, drop entries that are empty or do not end with the
/// platform's suffix (`.exe` on Windows, `.app` on macOS), and drop
/// repeats. Every other field is returned unchanged.
pub fn normalize(cfg: Config, platform: Platform) -> (r: Config)
    ensures
        r@ == normalized(cfg@, platform),
        r@.volume_step == cfg@.volume_step,
        r@.volume_step_large == cfg@.volume_step_large,
        r@.overlay_duration_ms == cfg@.overlay_duration_ms,
        r@.modifier == cfg@.modifier,
        r@.color_thresholds == cfg@.color_thresholds,
        r@.appearance == cfg@.appearance,
        r@.beep == cfg@.beep,
        r@.autostart == cfg@.autostart,
        r@.hotkeys == cfg@.hotkeys,
{
    let suffix = app_suffix(platform);
    let mut cfg = cfg;
    let mut entries: Vec<String> = Vec::new();
    std::mem::swap(&mut entries, &mut cfg.blacklist);
    let ghost src = strings_view(entries@);
    let n = entries.len();
    let mut kept: Vec<String> = Vec::new();
    let mut i: usize = 0;
    while i < n
        invariant
            n == entries.len(),
            i <= n,
            src == strings_view(entries@),
            suffix@ == suffix_of(platform),
            strings_view(kept@) == normalized_blacklist(src.take(i as int), suffix_of(platform)),
        decreases n - i,
    {
        let e = to_lowercase(trim_white_space(entries[i].as_str()));
        proof {
            assert(src.take(i as int + 1).drop_last() =~= src.take(i as int));
            assert(src.take(i as int + 1).last() == entries@[i as int]@);
        }
        if e.unicode_len() > 0 && str_ends_with(e.as_str(), suffix) && !strings_contain(&kept, &e) {
            let ghost before = kept@;
            kept.push(e);
            proof {
                assert(strings_view(kept@) =~= strings_view(before).push(e@));
            }
        }
        i = i + 1;
    }
    proof {
        assert(src.take(n as int) =~= src);
    }
    cfg.blacklist = kept;
    cfg
}

/// The configuration that saving writes: strictly validate, then normalize.
/// A configuration that fails validation is refused before anything is
/// written, with the first failing field.
pub fn prepare_save(cfg: &Config, platform: Platform) -> (r: Result<Config, ConfigError>)
    ensures
        match r {
            Ok(saved) => {
                &&& is_valid(cfg@)
                &&& saved@ == normalized(cfg@, platform)
                &&& saved@ == crate::config::ConfigView { blacklist: saved@.blacklist, ..cfg@ }
            },
            Err(ConfigError::Validation(e)) => first_failure(cfg@) == fail(e.field@, e.message@),
            Err(_) => false,
        },
{
    match validate(cfg) {
        Ok(()) => Ok(normalize(cfg.clone(), platform)),
        Err(e) => Err(ConfigError::Validation(e)),
    }
}

/// A normalized blacklist holds only application names of the platform,
/// never the same entry twice, and no more entries than it started with.
pub proof fn lemma_normalized_blacklist_shape(entries: Seq<Seq<char>>, suffix: Seq<char>)
    ensures
        forall|i: int|
            0 <= i < normalized_blacklist(entries, suffix).len() ==> is_app_name(
                #[trigger] normalized_blacklist(entries, suffix)[i],
                suffix,
            ),
        forall|i: int, j: int|
            0 <= i < j < normalized_blacklist(entries, suffix).len() ==> normalized_blacklist(
                entries,
                suffix,
            )[i] != normalized_blacklist(entries, suffix)[j],
        normalized_blacklist(entries, suffix).len() <= entries.len(),
    decreases entries.len(),
{
    if entries.len() > 0 {
        lemma_normalized_blacklist_shape(entries.drop_last(), suffix);
        let kept = normalized_blacklist(entries.drop_last(), suffix);
        let e = entry_form(entries.last());
        if is_app_name(e, suffix) && !kept.contains(e) {
            let out = kept.push(e);
            assert forall|i: int, j: int| 0 <= i < j < out.len() implies out[i] != out[j] by {
                if j == out.len() - 1 {
                    assert(out[i] == kept[i]);
                    assert(kept.contains(kept[i]));
                }
            }
        }
    }
}

/// Strict validation does not look at the blacklist, so normalizing a
/// valid configuration keeps it valid.
pub proof fn lemma_normalize_preserves_validity(c: ConfigView, platform: Platform)
    ensures
        is_valid(normalized(c, platform)) == is_valid(c),
{
}

/// A typed application name in its stored form for a platform: trimmed and
/// lowercased; empty stays empty; otherwise the platform's suffix is added
/// unless the name already ends with it.
pub open spec fn suffixed_entry(lowered: Seq<char>, suffix: Seq<char>) -> Seq<char> {
    if lowered.len() == 0 {
        Seq::empty()
    } else if ends_with(lowered, suffix) {
        lowered
    } else {
        lowered + suffix
    }
}

/// Turn a typed application name into a blacklist entry for the platform,
/// so that normalization keeps it.
pub fn blacklist_entry_for(raw: &str, platform: Platform) -> (r: String)
    ensures
        r@ == suffixed_entry(lowercase_of(trimmed(raw@)), suffix_of(platform)),
{
    let lowered = to_lowercase(trim_white_space(raw));
    let suffix = app_suffix(platform);
    if lowered.unicode_len() == 0 {
        proof {
            reveal_strlit("");
        }
        String::from_str("")
    } else if str_ends_with(lowered.as_str(), suffix) {
        lowered
    } else {
        lowered.concat(suffix)
    }
}

/// A name turned into an entry survives normalization: a non-empty typed
/// name's entry is an application name of the platform.
pub proof fn lemma_typed_entries_survive(lowered: Seq<char>, suffix: Seq<char>)
    requires
        lowered.len() > 0,
    ensures
        is_app_name(suffixed_entry(lowered, suffix), suffix),
{
    if !ends_with(lowered, suffix) {
        let e = lowered + suffix;
        assert(e.subrange(e.len() - suffix.len(), e.len() as int) =~= suffix);
    }
}

/// A configuration passes validation exactly when every documented range
/// holds, both ends included: steps within 1..=50 with the large step above
/// the small one, the overlay within 200..=10000 ms, both beep frequencies
/// within 37..=32767 Hz, both beep durations within 10..=2000 ms, and the
/// legend thresholds ordered green <= blue <= orange <= 100.
pub proof fn lemma_valid_iff_in_range(c: ConfigView)
    ensures
        is_valid(c) <==> (1 <= c.volume_step <= 50
            && 1 <= c.volume_step_large <= 50
            && c.volume_step < c.volume_step_large
            && 200 <= c.overlay_duration_ms <= 10000
            && 37 <= c.beep.blocked_freq <= 32767
            && 10 <= c.beep.blocked_duration_ms <= 2000
            && 37 <= c.beep.limit_freq <= 32767
            && 10 <= c.beep.limit_duration_ms <= 2000
            && c.color_thresholds.green_up_to <= c.color_thresholds.blue_up_to
            && c.color_thresholds.blue_up_to <= c.color_thresholds.orange_up_to
            && c.color_thresholds.orange_up_to <= 100),
{
}

/// Normalization touches only the blacklist: every other setting of the
/// result is the setting it was given.
pub proof fn lemma_normalize_keeps_other_settings(c: ConfigView, platform: Platform)
    ensures
        ({
            let n = normalized(c, platform);
            &&& n.volume_step == c.volume_step
            &&& n.volume_step_large == c.volume_step_large
            &&& n.overlay_duration_ms == c.overlay_duration_ms
            &&& n.modifier == c.modifier
            &&& n.color_thresholds == c.color_thresholds
            &&& n.appearance == c.appearance
            &&& n.beep == c.beep
            &&& n.autostart == c.autostart
            &&& n.hotkeys == c.hotkeys
        }),
{
}

} // verus!
