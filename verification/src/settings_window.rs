//! The pure decision tables of the native Settings window: its sections and
//! their navigation order, which control and which static belongs to which
//! section, which validation field a control edits, the combo-box index
//! mappings, the mapping of control values into a [`Config`], and the
//! normalization of a typed blacklist entry.

use vstd::prelude::*;
use crate::config::{clone_strings, strings_view, Config, ConfigView, HotkeyModifier};
use crate::text::{
    ends_with_exe, exe_suffix, lowercase_of, str_ends_with_exe, str_equals, to_lowercase,
    trim_white_space, trimmed,
};
use crate::ui::model::{AccentMode, MaterialMode, MotionMode, ThemeMode};

verus! {

broadcast use vstd::string::group_string_axioms;

// Interactive controls, in tab order.
pub const ID_VOL_STEP: isize = 100;
pub const ID_VOL_STEP_LARGE: isize = 101;
pub const ID_OVERLAY_MS: isize = 102;
pub const ID_COMBO_MODIFIER: isize = 103;
pub const ID_COMBO_THEME: isize = 104;
pub const ID_COMBO_MATERIAL: isize = 105;
pub const ID_COMBO_MOTION: isize = 106;
pub const ID_COMBO_ACCENT: isize = 107;
pub const ID_LIST_BLACKLIST: isize = 108;
pub const ID_EDIT_BLACKLIST: isize = 109;
pub const ID_BTN_BLACKLIST_ADD: isize = 110;
pub const ID_BTN_BLACKLIST_REMOVE: isize = 111;
pub const ID_BTN_BLACKLIST_CLEAR: isize = 112;
pub const ID_BTN_BLACKLIST_RECOMMEND: isize = 113;
pub const ID_CHK_BEEP: isize = 114;
pub const ID_BLOCKED_FREQ: isize = 115;
pub const ID_BLOCKED_DUR: isize = 116;
pub const ID_LIMIT_FREQ: isize = 117;
pub const ID_LIMIT_DUR: isize = 118;
pub const ID_BTN_OPEN_CONFIG: isize = 119;
pub const ID_BTN_APPLY: isize = 120;
pub const ID_BTN_RESET: isize = 121;
pub const ID_BTN_CANCEL: isize = 122;
pub const ID_BTN_CLOSE: isize = 123;

// Section headers and subtitles.
pub const ID_HDR_GENERAL: isize = 200;
pub const ID_HDR_HOTKEYS: isize = 201;
pub const ID_HDR_APPEARANCE: isize = 202;
pub const ID_HDR_BLACKLIST: isize = 203;
pub const ID_HDR_FEEDBACK: isize = 204;
pub const ID_HDR_STORAGE: isize = 205;
pub const ID_SUB_GENERAL: isize = 206;
pub const ID_SUB_HOTKEYS: isize = 207;
pub const ID_SUB_APPEARANCE: isize = 208;
pub const ID_SUB_BLACKLIST: isize = 209;
pub const ID_SUB_FEEDBACK: isize = 210;
pub const ID_SUB_STORAGE: isize = 211;

// Labels, helper lines and status statics.
pub const ID_LBL_VOL_STEP: isize = 300;
pub const ID_LBL_VOL_STEP_LARGE: isize = 301;
pub const ID_LBL_OVERLAY: isize = 302;
pub const ID_LBL_MODIFIER: isize = 303;
pub const ID_ST_HOTKEY_STATUS: isize = 304;
pub const ID_LBL_THEME: isize = 305;
pub const ID_LBL_MATERIAL: isize = 306;
pub const ID_LBL_MOTION: isize = 307;
pub const ID_LBL_ACCENT: isize = 308;
pub const ID_LBL_BLOCKED_FREQ: isize = 309;
pub const ID_LBL_BLOCKED_DUR: isize = 310;
pub const ID_LBL_LIMIT_FREQ: isize = 311;
pub const ID_LBL_LIMIT_DUR: isize = 312;
pub const ID_LBL_CONFIG: isize = 313;
pub const ID_ST_STATUS: isize = 314;
pub const ID_ST_CONFIG_PATH: isize = 315;
pub const ID_HELP_VOL_STEP: isize = 316;
pub const ID_HELP_VOL_STEP_LARGE: isize = 317;
pub const ID_HELP_OVERLAY: isize = 318;
pub const ID_HELP_BLOCKED_FREQ: isize = 319;
pub const ID_HELP_BLOCKED_DUR: isize = 320;
pub const ID_HELP_LIMIT_FREQ: isize = 321;
pub const ID_HELP_LIMIT_DUR: isize = 322;
pub const ID_ST_PREVIEW_CAPTION: isize = 323;
pub const ID_ST_BLACKLIST_EMPTY_1: isize = 324;
pub const ID_ST_BLACKLIST_EMPTY_2: isize = 325;
pub const ID_ST_STORAGE_STATUS: isize = 326;
pub const ID_ST_STATUS_UIA: isize = 327;

/// The navigation sections, in rail order.
#[derive(Debug, Clone, Copy, PartialEq, Eq, Structural)]
pub enum Section {
    General,
    Hotkeys,
    Appearance,
    Blacklist,
    Feedback,
    Storage,
}

/// Number of sections.
pub const SECTION_COUNT: usize = 6;

/// Rail position of a section.
pub open spec fn position(s: Section) -> int {
    match s {
        Section::General => 0,
        Section::Hotkeys => 1,
        Section::Appearance => 2,
        Section::Blacklist => 3,
        Section::Feedback => 4,
        Section::Storage => 5,
    }
}

/// The section at a rail position (0..6).
pub open spec fn section_at(i: int) -> Section {
    if i == 0 {
        Section::General
    } else if i == 1 {
        Section::Hotkeys
    } else if i == 2 {
        Section::Appearance
    } else if i == 3 {
        Section::Blacklist
    } else if i == 4 {
        Section::Feedback
    } else {
        Section::Storage
    }
}

impl Section {
    /// Every section, in rail order.
    pub fn all() -> (r: [Section; 6])
        ensures
            forall|i: int| 0 <= i < 6 ==> #[trigger] r@[i] == section_at(i),
    {
        [
            Section::General,
            Section::Hotkeys,
            Section::Appearance,
            Section::Blacklist,
            Section::Feedback,
            Section::Storage,
        ]
    }

    pub fn index(self) -> (r: usize)
        ensures
            r == position(self),
            r < SECTION_COUNT,
    {
        match self {
            Section::General => 0,
            Section::Hotkeys => 1,
            Section::Appearance => 2,
            Section::Blacklist => 3,
            Section::Feedback => 4,
            Section::Storage => 5,
        }
    }

    /// The section at `index`, wrapping around the rail.
    pub fn from_index(index: usize) -> (r: Section)
        ensures
            r == section_at(index as int % 6),
    {
        let i = index % SECTION_COUNT;
        if i == 0 {
            Section::General
        } else if i == 1 {
            Section::Hotkeys
        } else if i == 2 {
            Section::Appearance
        } else if i == 3 {
            Section::Blacklist
        } else if i == 4 {
            Section::Feedback
        } else {
            Section::Storage
        }
    }

    /// The previous section, wrapping from the first to the last.
    pub fn previous(self) -> (r: Section)
        ensures
            r == section_at((position(self) + 5) % 6),
    {
        Section::from_index(self.index() + SECTION_COUNT - 1)
    }

    /// The next section, wrapping from the last to the first.
    pub fn next(self) -> (r: Section)
        ensures
            r == section_at((position(self) + 1) % 6),
    {
        Section::from_index(self.index() + 1)
    }

    pub fn title(self) -> (r: &'static str)
        ensures
            r@ == match self {
                Section::General => "General"@,
                Section::Hotkeys => "Hotkeys"@,
                Section::Appearance => "Appearance"@,
                Section::Blacklist => "Blacklist"@,
                Section::Feedback => "Feedback"@,
                Section::Storage => "Storage"@,
            },
    {
        match self {
            Section::General => "General",
            Section::Hotkeys => "Hotkeys",
            Section::Appearance => "Appearance",
            Section::Blacklist => "Blacklist",
            Section::Feedback => "Feedback",
            Section::Storage => "Storage",
        }
    }

    pub fn subtitle(self) -> (r: &'static str)
        ensures
            r@ == match self {
                Section::General => "Adjust how volume changes feel."@,
                Section::Hotkeys => "The modifier for VolumeControl's custom shortcuts."@,
                Section::Appearance => "Theme, material, motion, and accent."@,
                Section::Blacklist => "Block shortcuts while these apps have focus."@,
                Section::Feedback => "Beep feedback for blocked and limit actions."@,
                Section::Storage => "Where VolumeControl keeps its configuration."@,
            },
    {
        match self {
            Section::General => "Adjust how volume changes feel.",
            Section::Hotkeys => "The modifier for VolumeControl's custom shortcuts.",
            Section::Appearance => "Theme, material, motion, and accent.",
            Section::Blacklist => "Block shortcuts while these apps have focus.",
            Section::Feedback => "Beep feedback for blocked and limit actions.",
            Section::Storage => "Where VolumeControl keeps its configuration.",
        }
    }
}

/// Rail positions and sections correspond one to one, and `next` and
/// `previous` undo each other.
pub proof fn lemma_section_navigation(s: Section, i: int)
    ensures
        section_at(position(s)) == s,
        0 <= i < 6 ==> position(section_at(i)) == i,
        section_at((position(section_at((position(s) + 1) % 6)) + 5) % 6) == s,
        section_at((position(section_at((position(s) + 5) % 6)) + 1) % 6) == s,
{
}

/// Combo index of a modifier.
pub open spec fn modifier_pos(m: HotkeyModifier) -> int {
    match m {
        HotkeyModifier::CtrlAlt => 0,
        HotkeyModifier::Alt => 1,
        HotkeyModifier::Ctrl => 2,
        HotkeyModifier::CapsLock => 3,
    }
}

pub fn modifier_label(m: HotkeyModifier) -> (r: &'static str)
    ensures
        r@ == match m {
            HotkeyModifier::CtrlAlt => "Ctrl+Alt"@,
            HotkeyModifier::Alt => "Alt"@,
            HotkeyModifier::Ctrl => "Ctrl"@,
            HotkeyModifier::CapsLock => "CapsLock"@,
        },
{
    match m {
        HotkeyModifier::CtrlAlt => "Ctrl+Alt",
        HotkeyModifier::Alt => "Alt",
        HotkeyModifier::Ctrl => "Ctrl",
        HotkeyModifier::CapsLock => "CapsLock",
    }
}

pub fn modifier_index(m: HotkeyModifier) -> (r: usize)
    ensures
        r == modifier_pos(m),
{
    match m {
        HotkeyModifier::CtrlAlt => 0,
        HotkeyModifier::Alt => 1,
        HotkeyModifier::Ctrl => 2,
        HotkeyModifier::CapsLock => 3,
    }
}

/// The modifier shown at a combo index; no selection (or an unknown index)
/// means the first item.
pub open spec fn modifier_at(idx: int) -> HotkeyModifier {
    if idx == 1 {
        HotkeyModifier::Alt
    } else if idx == 2 {
        HotkeyModifier::Ctrl
    } else if idx == 3 {
        HotkeyModifier::CapsLock
    } else {
        HotkeyModifier::CtrlAlt
    }
}

pub fn modifier_from_index(idx: i32) -> (r: HotkeyModifier)
    ensures
        r == modifier_at(idx as int),
{
    match idx {
        1 => HotkeyModifier::Alt,
        2 => HotkeyModifier::Ctrl,
        3 => HotkeyModifier::CapsLock,
        _ => HotkeyModifier::CtrlAlt,
    }
}

pub open spec fn theme_pos(t: ThemeMode) -> int {
    match t {
        ThemeMode::System => 0,
        ThemeMode::Light => 1,
        ThemeMode::Dark => 2,
    }
}

pub fn theme_index(t: ThemeMode) -> (r: usize)
    ensures
        r == theme_pos(t),
{
    match t {
        ThemeMode::System => 0,
        ThemeMode::Light => 1,
        ThemeMode::Dark => 2,
    }
}

/// The theme shown at a combo index; no selection (or an unknown index)
/// means the first item.
pub open spec fn theme_at(idx: int) -> ThemeMode {
    if idx == 1 {
        ThemeMode::Light
    } else if idx == 2 {
        ThemeMode::Dark
    } else {
        ThemeMode::System
    }
}

pub fn theme_from_index(idx: i32) -> (r: ThemeMode)
    ensures
        r == theme_at(idx as int),
{
    match idx {
        1 => ThemeMode::Light,
        2 => ThemeMode::Dark,
        _ => ThemeMode::System,
    }
}

pub open spec fn material_pos(m: MaterialMode) -> int {
    match m {
        MaterialMode::Auto => 0,
        MaterialMode::Translucent => 1,
        MaterialMode::Opaque => 2,
    }
}

pub fn material_index(m: MaterialMode) -> (r: usize)
    ensures
        r == material_pos(m),
{
    match m {
        MaterialMode::Auto => 0,
        MaterialMode::Translucent => 1,
        MaterialMode::Opaque => 2,
    }
}

/// The material mode shown at a combo index; no selection (or an unknown index)
/// means the first item.
pub open spec fn material_at(idx: int) -> MaterialMode {
    if idx == 1 {
        MaterialMode::Translucent
    } else if idx == 2 {
        MaterialMode::Opaque
    } else {
        MaterialMode::Auto
    }
}

pub fn material_from_index(idx: i32) -> (r: MaterialMode)
    ensures
        r == material_at(idx as int),
{
    match idx {
        1 => MaterialMode::Translucent,
        2 => MaterialMode::Opaque,
        _ => MaterialMode::Auto,
    }
}

pub open spec fn motion_pos(m: MotionMode) -> int {
    match m {
        MotionMode::Full => 0,
        MotionMode::Reduced => 1,
        MotionMode::Disabled => 2,
    }
}

pub fn motion_index(m: MotionMode) -> (r: usize)
    ensures
        r == motion_pos(m),
{
    match m {
        MotionMode::Full => 0,
        MotionMode::Reduced => 1,
        MotionMode::Disabled => 2,
    }
}

/// The motion mode shown at a combo index; no selection (or an unknown index)
/// means the first item.
pub open spec fn motion_at(idx: int) -> MotionMode {
    if idx == 1 {
        MotionMode::Reduced
    } else if idx == 2 {
        MotionMode::Disabled
    } else {
        MotionMode::Full
    }
}

pub fn motion_from_index(idx: i32) -> (r: MotionMode)
    ensures
        r == motion_at(idx as int),
{
    match idx {
        1 => MotionMode::Reduced,
        2 => MotionMode::Disabled,
        _ => MotionMode::Full,
    }
}

pub open spec fn accent_pos(a: AccentMode) -> int {
    match a {
        AccentMode::System => 0,
        AccentMode::Blue => 1,
        AccentMode::Green => 2,
        AccentMode::Purple => 3,
        AccentMode::Orange => 4,
    }
}

pub fn accent_index(a: AccentMode) -> (r: usize)
    ensures
        r == accent_pos(a),
{
    match a {
        AccentMode::System => 0,
        AccentMode::Blue => 1,
        AccentMode::Green => 2,
        AccentMode::Purple => 3,
        AccentMode::Orange => 4,
    }
}

/// The accent shown at a combo index; no selection (or an unknown index)
/// means the first item.
pub open spec fn accent_at(idx: int) -> AccentMode {
    if idx == 1 {
        AccentMode::Blue
    } else if idx == 2 {
        AccentMode::Green
    } else if idx == 3 {
        AccentMode::Purple
    } else if idx == 4 {
        AccentMode::Orange
    } else {
        AccentMode::System
    }
}

pub fn accent_from_index(idx: i32) -> (r: AccentMode)
    ensures
        r == accent_at(idx as int),
{
    match idx {
        1 => AccentMode::Blue,
        2 => AccentMode::Green,
        3 => AccentMode::Purple,
        4 => AccentMode::Orange,
        _ => AccentMode::System,
    }
}

/// Reading back the index a value is shown at gives the value again, for
/// every combo box.
pub proof fn lemma_combo_indices_round_trip(
    m: HotkeyModifier,
    t: ThemeMode,
    mat: MaterialMode,
    mo: MotionMode,
    a: AccentMode,
)
    ensures
        modifier_at(modifier_pos(m)) == m,
        theme_at(theme_pos(t)) == t,
        material_at(material_pos(mat)) == mat,
        motion_at(motion_pos(mo)) == mo,
        accent_at(accent_pos(a)) == a,
{
}

/// Parsed working values of the window's editable controls.
#[derive(Debug, Clone, PartialEq)]
pub struct ControlValues {
    pub volume_step: u32,
    pub volume_step_large: u32,
    pub overlay_duration_ms: u64,
    pub modifier: HotkeyModifier,
    pub theme: ThemeMode,
    pub material: MaterialMode,
    pub motion: MotionMode,
    pub accent: AccentMode,
    pub beep_enabled: bool,
    pub blocked_freq: u32,
    pub blocked_duration_ms: u32,
    pub limit_freq: u32,
    pub limit_duration_ms: u32,
    pub blacklist: Vec<String>,
}

/// The configuration the controls describe on top of `base`: every exposed
/// field comes from the controls, every other field (legend thresholds,
/// auto-start) from `base`.
pub open spec fn config_from_controls(base: ConfigView, v: ControlValues) -> ConfigView {
    ConfigView {
        volume_step: v.volume_step,
        volume_step_large: v.volume_step_large,
        overlay_duration_ms: v.overlay_duration_ms,
        modifier: v.modifier,
        blacklist: strings_view(v.blacklist@),
        appearance: crate::config::AppearanceConfig {
            theme: v.theme,
            material: v.material,
            motion: v.motion,
            accent: v.accent,
        },
        beep: crate::config::BeepConfig {
            enabled: v.beep_enabled,
            blocked_freq: v.blocked_freq,
            blocked_duration_ms: v.blocked_duration_ms,
            limit_freq: v.limit_freq,
            limit_duration_ms: v.limit_duration_ms,
        },
        ..base
    }
}

/// Overlay the control values onto `base`, preserving every field the
/// window does not expose.
pub fn control_values_to_config(base: &Config, values: &ControlValues) -> (r: Config)
    ensures
        r@ == config_from_controls(base@, *values),
{
    let mut cfg = base.clone();
    cfg.volume_step = values.volume_step;
    cfg.volume_step_large = values.volume_step_large;
    cfg.overlay_duration_ms = values.overlay_duration_ms;
    cfg.modifier = values.modifier;
    cfg.appearance.theme = values.theme;
    cfg.appearance.material = values.material;
    cfg.appearance.motion = values.motion;
    cfg.appearance.accent = values.accent;
    cfg.beep.enabled = values.beep_enabled;
    cfg.beep.blocked_freq = values.blocked_freq;
    cfg.beep.blocked_duration_ms = values.blocked_duration_ms;
    cfg.beep.limit_freq = values.limit_freq;
    cfg.beep.limit_duration_ms = values.limit_duration_ms;
    cfg.blacklist = clone_strings(&values.blacklist);
    cfg
}

/// The section an interactive control belongs to; footer buttons and the
/// close button belong to none.
pub open spec fn section_of_interactive(id: isize) -> Option<Section> {
    if ID_VOL_STEP <= id <= ID_OVERLAY_MS {
        Some(Section::General)
    } else if id == ID_COMBO_MODIFIER {
        Some(Section::Hotkeys)
    } else if ID_COMBO_THEME <= id <= ID_COMBO_ACCENT {
        Some(Section::Appearance)
    } else if ID_LIST_BLACKLIST <= id <= ID_BTN_BLACKLIST_RECOMMEND {
        Some(Section::Blacklist)
    } else if ID_CHK_BEEP <= id <= ID_LIMIT_DUR {
        Some(Section::Feedback)
    } else if id == ID_BTN_OPEN_CONFIG {
        Some(Section::Storage)
    } else {
        None
    }
}

pub fn interactive_section(id: isize) -> (r: Option<Section>)
    ensures
        r == section_of_interactive(id),
{
    if ID_VOL_STEP <= id && id <= ID_OVERLAY_MS {
        Some(Section::General)
    } else if id == ID_COMBO_MODIFIER {
        Some(Section::Hotkeys)
    } else if ID_COMBO_THEME <= id && id <= ID_COMBO_ACCENT {
        Some(Section::Appearance)
    } else if ID_LIST_BLACKLIST <= id && id <= ID_BTN_BLACKLIST_RECOMMEND {
        Some(Section::Blacklist)
    } else if ID_CHK_BEEP <= id && id <= ID_LIMIT_DUR {
        Some(Section::Feedback)
    } else if id == ID_BTN_OPEN_CONFIG {
        Some(Section::Storage)
    } else {
        None
    }
}

/// The section a static belongs to; the status line and its mirror belong
/// to none.
pub open spec fn section_of_static(id: isize) -> Option<Section> {
    if id == ID_HDR_GENERAL || id == ID_SUB_GENERAL || id == ID_LBL_VOL_STEP || id
        == ID_LBL_VOL_STEP_LARGE || id == ID_LBL_OVERLAY || id == ID_HELP_VOL_STEP || id
        == ID_HELP_VOL_STEP_LARGE || id == ID_HELP_OVERLAY {
        Some(Section::General)
    } else if id == ID_HDR_HOTKEYS || id == ID_SUB_HOTKEYS || id == ID_LBL_MODIFIER || id
        == ID_ST_HOTKEY_STATUS {
        Some(Section::Hotkeys)
    } else if id == ID_HDR_APPEARANCE || id == ID_SUB_APPEARANCE || (ID_LBL_THEME <= id
        <= ID_LBL_ACCENT) || id == ID_ST_PREVIEW_CAPTION {
        Some(Section::Appearance)
    } else if id == ID_HDR_BLACKLIST || id == ID_SUB_BLACKLIST || id == ID_ST_BLACKLIST_EMPTY_1
        || id == ID_ST_BLACKLIST_EMPTY_2 {
        Some(Section::Blacklist)
    } else if id == ID_HDR_FEEDBACK || id == ID_SUB_FEEDBACK || (ID_LBL_BLOCKED_FREQ <= id
        <= ID_LBL_LIMIT_DUR) || (ID_HELP_BLOCKED_FREQ <= id <= ID_HELP_LIMIT_DUR) {
        Some(Section::Feedback)
    } else if id == ID_HDR_STORAGE || id == ID_SUB_STORAGE || id == ID_LBL_CONFIG || id
        == ID_ST_CONFIG_PATH || id == ID_ST_STORAGE_STATUS {
        Some(Section::Storage)
    } else {
        None
    }
}

pub fn static_section(id: isize) -> (r: Option<Section>)
    ensures
        r == section_of_static(id),
{
    if id == ID_HDR_GENERAL || id == ID_SUB_GENERAL || id == ID_LBL_VOL_STEP || id
        == ID_LBL_VOL_STEP_LARGE || id == ID_LBL_OVERLAY || id == ID_HELP_VOL_STEP || id
        == ID_HELP_VOL_STEP_LARGE || id == ID_HELP_OVERLAY {
        Some(Section::General)
    } else if id == ID_HDR_HOTKEYS || id == ID_SUB_HOTKEYS || id == ID_LBL_MODIFIER || id
        == ID_ST_HOTKEY_STATUS {
        Some(Section::Hotkeys)
    } else if id == ID_HDR_APPEARANCE || id == ID_SUB_APPEARANCE || (ID_LBL_THEME <= id && id
        <= ID_LBL_ACCENT) || id == ID_ST_PREVIEW_CAPTION {
        Some(Section::Appearance)
    } else if id == ID_HDR_BLACKLIST || id == ID_SUB_BLACKLIST || id == ID_ST_BLACKLIST_EMPTY_1
        || id == ID_ST_BLACKLIST_EMPTY_2 {
        Some(Section::Blacklist)
    } else if id == ID_HDR_FEEDBACK || id == ID_SUB_FEEDBACK || (ID_LBL_BLOCKED_FREQ <= id && id
        <= ID_LBL_LIMIT_DUR) || (ID_HELP_BLOCKED_FREQ <= id && id <= ID_HELP_LIMIT_DUR) {
        Some(Section::Feedback)
    } else if id == ID_HDR_STORAGE || id == ID_SUB_STORAGE || id == ID_LBL_CONFIG || id
        == ID_ST_CONFIG_PATH || id == ID_ST_STORAGE_STATUS {
        Some(Section::Storage)
    } else {
        None
    }
}

/// The section that shows a validation field, for the fields that have an
/// inline error.
pub open spec fn section_of_field_spec(field: Seq<char>) -> Option<Section> {
    if field == "volume_step"@ || field == "volume_step_large"@ || field
        == "overlay_duration_ms"@ {
        Some(Section::General)
    } else if field == "beep.blocked_freq"@ || field == "beep.blocked_duration_ms"@ || field
        == "beep.limit_freq"@ || field == "beep.limit_duration_ms"@ {
        Some(Section::Feedback)
    } else {
        None
    }
}

/// The section containing a validation field, if the field is exposed.
pub fn section_of_field(field: &str) -> (r: Option<Section>)
    ensures
        r == section_of_field_spec(field@),
{
    if str_equals(field, "volume_step") || str_equals(field, "volume_step_large") || str_equals(
        field,
        "overlay_duration_ms",
    ) {
        Some(Section::General)
    } else if str_equals(field, "beep.blocked_freq") || str_equals(
        field,
        "beep.blocked_duration_ms",
    ) || str_equals(field, "beep.limit_freq") || str_equals(field, "beep.limit_duration_ms") {
        Some(Section::Feedback)
    } else {
        None
    }
}

/// The fields with an inline error, in the window's order (the order in
/// which validation checks them).
pub fn inline_error_fields() -> (r: [&'static str; 7])
    ensures
        r@[0]@ == "volume_step"@,
        r@[1]@ == "volume_step_large"@,
        r@[2]@ == "overlay_duration_ms"@,
        r@[3]@ == "beep.blocked_freq"@,
        r@[4]@ == "beep.blocked_duration_ms"@,
        r@[5]@ == "beep.limit_freq"@,
        r@[6]@ == "beep.limit_duration_ms"@,
{
    [
        "volume_step",
        "volume_step_large",
        "overlay_duration_ms",
        "beep.blocked_freq",
        "beep.blocked_duration_ms",
        "beep.limit_freq",
        "beep.limit_duration_ms",
    ]
}

/// The validation field an interactive control edits, for the fields with
/// inline validation.
pub open spec fn field_of_control(id: isize) -> Option<Seq<char>> {
    if id == ID_VOL_STEP {
        Some("volume_step"@)
    } else if id == ID_VOL_STEP_LARGE {
        Some("volume_step_large"@)
    } else if id == ID_OVERLAY_MS {
        Some("overlay_duration_ms"@)
    } else if id == ID_BLOCKED_FREQ {
        Some("beep.blocked_freq"@)
    } else if id == ID_BLOCKED_DUR {
        Some("beep.blocked_duration_ms"@)
    } else if id == ID_LIMIT_FREQ {
        Some("beep.limit_freq"@)
    } else if id == ID_LIMIT_DUR {
        Some("beep.limit_duration_ms"@)
    } else {
        None
    }
}

pub fn field_for_control(id: isize) -> (r: Option<&'static str>)
    ensures
        match r {
            Some(f) => field_of_control(id) == Some(f@),
            None => field_of_control(id) is None,
        },
{
    if id == ID_VOL_STEP {
        Some("volume_step")
    } else if id == ID_VOL_STEP_LARGE {
        Some("volume_step_large")
    } else if id == ID_OVERLAY_MS {
        Some("overlay_duration_ms")
    } else if id == ID_BLOCKED_FREQ {
        Some("beep.blocked_freq")
    } else if id == ID_BLOCKED_DUR {
        Some("beep.blocked_duration_ms")
    } else if id == ID_LIMIT_FREQ {
        Some("beep.limit_freq")
    } else if id == ID_LIMIT_DUR {
        Some("beep.limit_duration_ms")
    } else {
        None
    }
}

/// Every control with inline validation edits a field that its own section
/// shows, so a failing field is always visible in the section the window
/// switches to.
pub proof fn lemma_control_fields_live_in_the_control_section(id: isize)
    requires
        field_of_control(id) is Some,
    ensures
        section_of_field_spec(field_of_control(id)->0) == section_of_interactive(id),
{
    reveal_strlit("volume_step");
    reveal_strlit("volume_step_large");
    reveal_strlit("overlay_duration_ms");
    reveal_strlit("beep.blocked_freq");
    reveal_strlit("beep.blocked_duration_ms");
    reveal_strlit("beep.limit_freq");
    reveal_strlit("beep.limit_duration_ms");
    let f = field_of_control(id)->0;
    if id >= ID_BLOCKED_FREQ {
        assert(f.len() >= 15);
        assert(f != "volume_step"@);
        assert(f != "volume_step_large"@ && f != "overlay_duration_ms"@) by {
            assert(f[0] == 'b');
        }
    }
}

/// A typed blacklist entry after lowercasing: empty stays empty, an entry
/// ending with `.exe` is kept, anything else gets `.exe` appended.
pub open spec fn exe_entry(lowered: Seq<char>) -> Seq<char> {
    if lowered.len() == 0 {
        Seq::empty()
    } else if ends_with_exe(lowered) {
        lowered
    } else {
        lowered + exe_suffix()
    }
}

/// Finish a trimmed, lowercased blacklist entry: keep it empty when empty,
/// keep it when it ends with `.exe`, otherwise append `.exe`.
pub fn exe_entry_of(lowered: String) -> (r: String)
    ensures
        r@ == exe_entry(lowered@),
{
    if lowered.as_str().unicode_len() == 0 {
        return lowered;
    }
    if str_ends_with_exe(lowered.as_str()) {
        lowered
    } else {
        let r = lowered.concat(".exe");
        proof {
            reveal_strlit(".exe");
            assert(".exe"@ =~= exe_suffix());
        }
        r
    }
}

/// Normalize a blacklist entry typed in the window: trim, lowercase, and
/// make sure it ends with `.exe`. Blank input normalizes to empty.
pub fn normalize_blacklist_entry(raw: &str) -> (r: String)
    ensures
        r@ == exe_entry(lowercase_of(trimmed(raw@))),
{
    let lowered = to_lowercase(trim_white_space(raw));
    exe_entry_of(lowered)
}

/// A typed blacklist name becomes empty exactly when it is blank; otherwise
/// its entry ends with `.exe`, keeps a name that already does, and appends
/// `.exe` to one that does not.
pub proof fn lemma_typed_exe_entry(lowered: Seq<char>)
    ensures
        (exe_entry(lowered).len() == 0) == (lowered.len() == 0),
        lowered.len() > 0 ==> ends_with_exe(exe_entry(lowered)),
        ends_with_exe(lowered) ==> exe_entry(lowered) == lowered,
        lowered.len() > 0 && !ends_with_exe(lowered) ==> exe_entry(lowered) == lowered
            + seq!['.', 'e', 'x', 'e'],
{
    if lowered.len() > 0 && !ends_with_exe(lowered) {
        let e = lowered + exe_suffix();
        assert(e.subrange(e.len() - 4, e.len() as int) =~= exe_suffix());
    }
}

/// The controls decide every field the window shows (steps, overlay time,
/// modifier, appearance, beeps and blacklist); the fields it does not show
/// (legend thresholds, auto-start, shortcuts) keep the base's values.
pub proof fn lemma_controls_set_shown_fields_only(base: ConfigView, v: ControlValues)
    ensures
        ({
            let c = config_from_controls(base, v);
            &&& c.volume_step == v.volume_step
            &&& c.volume_step_large == v.volume_step_large
            &&& c.overlay_duration_ms == v.overlay_duration_ms
            &&& c.modifier == v.modifier
            &&& c.appearance.theme == v.theme
            &&& c.appearance.material == v.material
            &&& c.appearance.motion == v.motion
            &&& c.appearance.accent == v.accent
            &&& c.beep.enabled == v.beep_enabled
            &&& c.beep.blocked_freq == v.blocked_freq
            &&& c.beep.blocked_duration_ms == v.blocked_duration_ms
            &&& c.beep.limit_freq == v.limit_freq
            &&& c.beep.limit_duration_ms == v.limit_duration_ms
            &&& c.blacklist.len() == v.blacklist@.len()
            &&& forall|i: int| 0 <= i < c.blacklist.len() ==> c.blacklist[i] == v.blacklist@[i]@
            &&& c.color_thresholds == base.color_thresholds
            &&& c.autostart == base.autostart
            &&& c.hotkeys == base.hotkeys
        }),
{
}

} // verus!
