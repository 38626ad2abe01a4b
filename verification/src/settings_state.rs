//! The Settings window's decisions over its edit draft: blacklist edits,
//! appearance choices, when Save is enabled, which inline error shows,
//! how a static is colored, what the status line announces, how an apply
//! result is reported, and the keyboard Tab cycle.
//!
//! The window itself only reads controls, calls these, and repaints.

use vstd::prelude::*;
use crate::config::{
    configs_equal, describe, strings_contain, strings_view, Config, ConfigError, ConfigValidationError,
    ConfigView,
};
use crate::settings_window::{
    field_for_control, field_of_control, ID_BTN_APPLY, ID_BTN_BLACKLIST_ADD,
    ID_BTN_BLACKLIST_CLEAR, ID_BTN_BLACKLIST_RECOMMEND, ID_BTN_BLACKLIST_REMOVE, ID_BTN_CANCEL,
    ID_BTN_CLOSE, ID_BTN_OPEN_CONFIG, ID_BTN_RESET, ID_CHK_BEEP,
    accent_at, accent_from_index, config_from_controls, control_values_to_config, exe_entry,
    material_at, material_from_index, motion_at, motion_from_index, normalize_blacklist_entry,
    position, section_at, section_of_field, section_of_field_spec, theme_at, theme_from_index, ControlValues, Section,
    ID_COMBO_ACCENT, ID_COMBO_MATERIAL, ID_COMBO_MOTION, ID_COMBO_THEME, ID_HDR_GENERAL,
    ID_HDR_STORAGE, ID_ST_STATUS,
};
use crate::text::{lowercase_of, str_equals, trimmed};
use crate::ui::draft::SettingsDraft;

verus! {

broadcast use vstd::string::group_string_axioms;

/// Inline validation error statics, one per inline field.
pub const ID_ERR_VOL_STEP: isize = 400;
pub const ID_ERR_VOL_STEP_LARGE: isize = 401;
pub const ID_ERR_OVERLAY: isize = 402;
pub const ID_ERR_BLOCKED_FREQ: isize = 403;
pub const ID_ERR_BLOCKED_DUR: isize = 404;
pub const ID_ERR_LIMIT_FREQ: isize = 405;
pub const ID_ERR_LIMIT_DUR: isize = 406;

/// The working copy with another blacklist.
pub open spec fn with_blacklist(c: ConfigView, blacklist: Seq<Seq<char>>) -> ConfigView {
    ConfigView { blacklist, ..c }
}

/// `draft` keeps its baseline and now edits `working`, with no stored
/// validation failure (the effect of `SettingsDraft::set_current`).
pub open spec fn edited_to(before: SettingsDraft, after: SettingsDraft, working: ConfigView) -> bool {
    &&& after.baseline() == before.baseline()
    &&& after.working()@ == working
    &&& after.stored_error() is None
}

/// The entry a typed blacklist name becomes (see `normalize_blacklist_entry`).
pub open spec fn typed_entry(name: Seq<char>) -> Seq<char> {
    exe_entry(lowercase_of(trimmed(name)))
}

/// Add a typed name to the working blacklist: it is normalized first, and
/// an empty result or an entry already listed changes nothing. Returns
/// whether the draft changed.
pub fn add_entry(draft: &mut SettingsDraft, name: &str) -> (added: bool)
    ensures
        ({
            let e = typed_entry(name@);
            let b = old(draft).working()@.blacklist;
            &&& added == (e.len() > 0 && !b.contains(e))
            &&& added ==> edited_to(*old(draft), *final(draft), with_blacklist(old(draft).working()@, b.push(e)))
            &&& !added ==> *final(draft) == *old(draft)
        }),
{
    let entry = normalize_blacklist_entry(name);
    if entry.unicode_len() == 0 {
        return false;
    }
    let mut cfg = draft.current().clone();
    if strings_contain(&cfg.blacklist, &entry) {
        return false;
    }
    let ghost before = cfg.blacklist@;
    cfg.blacklist.push(entry);
    proof {
        assert(strings_view(cfg.blacklist@) =~= strings_view(before).push(typed_entry(name@)));
        assert(cfg@ =~= with_blacklist(old(draft).working()@, old(draft).working()@.blacklist.push(typed_entry(name@))));
    }
    draft.set_current(cfg);
    true
}

/// `entries` without every entry equal to `name`, keeping the order.
pub open spec fn without(entries: Seq<Seq<char>>, name: Seq<char>) -> Seq<Seq<char>>
    decreases entries.len(),
{
    if entries.len() == 0 {
        Seq::empty()
    } else {
        let kept = without(entries.drop_last(), name);
        if entries.last() == name {
            kept
        } else {
            kept.push(entries.last())
        }
    }
}

/// Removing every `name` shortens the list exactly when it holds `name`.
pub proof fn lemma_without_shortens_iff_contains(entries: Seq<Seq<char>>, name: Seq<char>)
    ensures
        without(entries, name).len() <= entries.len(),
        (without(entries, name).len() < entries.len()) == entries.contains(name),
        !without(entries, name).contains(name),
    decreases entries.len(),
{
    if entries.len() > 0 {
        let rest = entries.drop_last();
        lemma_without_shortens_iff_contains(rest, name);
        if entries.contains(name) && entries.last() != name {
            let k = choose|k: int| 0 <= k < entries.len() && entries[k] == name;
            assert(rest[k] == name);
        }
        if rest.contains(name) {
            let k = choose|k: int| 0 <= k < rest.len() && rest[k] == name;
            assert(entries[k] == name);
        }
        if entries.last() != name {
            let kept = without(rest, name);
            if kept.push(entries.last()).contains(name) {
                let k = choose|k: int| 0 <= k < kept.len() + 1 && kept.push(entries.last())[k] == name;
                assert(kept[k] == name);
            }
        }
    }
}

/// Remove every working blacklist entry equal to `name`. Returns whether
/// the draft changed, which is exactly when the list held `name`.
pub fn remove_entry(draft: &mut SettingsDraft, name: &str) -> (removed: bool)
    ensures
        ({
            let b = old(draft).working()@.blacklist;
            &&& removed == b.contains(name@)
            &&& removed ==> edited_to(*old(draft), *final(draft), with_blacklist(old(draft).working()@, without(b, name@)))
            &&& !removed ==> *final(draft) == *old(draft)
        }),
{
    let mut cfg = draft.current().clone();
    let ghost src = strings_view(cfg.blacklist@);
    let mut entries: Vec<String> = Vec::new();
    std::mem::swap(&mut entries, &mut cfg.blacklist);
    let n = entries.len();
    let mut kept: Vec<String> = Vec::new();
    let mut i: usize = 0;
    while i < n
        invariant
            n == entries.len(),
            i <= n,
            src == strings_view(entries@),
            strings_view(kept@) == without(src.take(i as int), name@),
        decreases n - i,
    {
        proof {
            assert(src.take(i as int + 1).drop_last() =~= src.take(i as int));
            assert(src.take(i as int + 1).last() == entries@[i as int]@);
        }
        if !str_equals(entries[i].as_str(), name) {
            let ghost before = kept@;
            kept.push(entries[i].clone());
            proof {
                assert(strings_view(kept@) =~= strings_view(before).push(entries@[i as int]@));
            }
        }
        i = i + 1;
    }
    proof {
        assert(src.take(n as int) =~= src);
        lemma_without_shortens_iff_contains(src, name@);
    }
    if kept.len() == n {
        return false;
    }
    cfg.blacklist = kept;
    proof {
        assert(cfg@ =~= with_blacklist(old(draft).working()@, without(src, name@)));
    }
    draft.set_current(cfg);
    true
}

/// Empty the working blacklist. Returns whether the draft changed, which is
/// exactly when the list was not empty.
pub fn clear_entries(draft: &mut SettingsDraft) -> (cleared: bool)
    ensures
        ({
            let b = old(draft).working()@.blacklist;
            &&& cleared == (b.len() > 0)
            &&& cleared ==> edited_to(*old(draft), *final(draft), with_blacklist(old(draft).working()@, Seq::empty()))
            &&& !cleared ==> *final(draft) == *old(draft)
        }),
{
    let mut cfg = draft.current().clone();
    if cfg.blacklist.len() == 0 {
        return false;
    }
    cfg.blacklist = Vec::new();
    proof {
        assert(strings_view(cfg.blacklist@) =~= Seq::<Seq<char>>::empty());
        assert(cfg@ == with_blacklist(old(draft).working()@, Seq::empty()));
    }
    draft.set_current(cfg);
    true
}

/// `entries` followed by every entry of `extra` not listed yet, in the
/// order of `extra`.
pub open spec fn merged(entries: Seq<Seq<char>>, extra: Seq<Seq<char>>) -> Seq<Seq<char>>
    decreases extra.len(),
{
    if extra.len() == 0 {
        entries
    } else {
        let m = merged(entries, extra.drop_last());
        if m.contains(extra.last()) {
            m
        } else {
            m.push(extra.last())
        }
    }
}

/// Merging only appends: the original entries stay first, in order.
pub proof fn lemma_merged_extends(entries: Seq<Seq<char>>, extra: Seq<Seq<char>>)
    ensures
        merged(entries, extra).len() >= entries.len(),
        merged(entries, extra).subrange(0, entries.len() as int) == entries,
    decreases extra.len(),
{
    if extra.len() > 0 {
        lemma_merged_extends(entries, extra.drop_last());
        let m = merged(entries, extra.drop_last());
        if !m.contains(extra.last()) {
            assert(m.push(extra.last()).subrange(0, entries.len() as int) =~= m.subrange(
                0,
                entries.len() as int,
            ));
        }
    }
}

/// Merge a recommended list into the working blacklist, adding each entry
/// that is not listed yet. Returns whether the draft changed, which is
/// exactly when something was added.
pub fn merge_entries(draft: &mut SettingsDraft, recommended: &Vec<String>) -> (added: bool)
    ensures
        ({
            let b = old(draft).working()@.blacklist;
            let m = merged(b, strings_view(recommended@));
            &&& added == (m.len() > b.len())
            &&& added ==> edited_to(*old(draft), *final(draft), with_blacklist(old(draft).working()@, m))
            &&& !added ==> *final(draft) == *old(draft)
        }),
{
    let mut cfg = draft.current().clone();
    let ghost b = strings_view(cfg.blacklist@);
    let ghost rec = strings_view(recommended@);
    let n = recommended.len();
    let mut added = false;
    let mut i: usize = 0;
    while i < n
        invariant
            n == recommended.len(),
            i <= n,
            rec == strings_view(recommended@),
            strings_view(cfg.blacklist@) == merged(b, rec.take(i as int)),
            added == (merged(b, rec.take(i as int)).len() > b.len()),
            cfg@ == with_blacklist(old(draft).working()@, strings_view(cfg.blacklist@)),
            b == old(draft).working()@.blacklist,
        decreases n - i,
    {
        proof {
            assert(rec.take(i as int + 1).drop_last() =~= rec.take(i as int));
            assert(rec.take(i as int + 1).last() == recommended@[i as int]@);
            lemma_merged_extends(b, rec.take(i as int));
        }
        if !strings_contain(&cfg.blacklist, &recommended[i]) {
            let ghost before = cfg.blacklist@;
            cfg.blacklist.push(recommended[i].clone());
            added = true;
            proof {
                assert(strings_view(cfg.blacklist@) =~= strings_view(before).push(recommended@[i as int]@));
                assert(cfg@ =~= with_blacklist(old(draft).working()@, strings_view(cfg.blacklist@)));
            }
        }
        i = i + 1;
    }
    proof {
        assert(rec.take(n as int) =~= rec);
    }
    if !added {
        return false;
    }
    draft.set_current(cfg);
    true
}

/// The working copy with one appearance choice applied from a combo box:
/// the theme, material, motion or accent combo sets its field from the
/// selected index; any other control changes nothing.
pub open spec fn appearance_choice(c: ConfigView, id: isize, index: int) -> Option<ConfigView> {
    let a = c.appearance;
    if id == ID_COMBO_THEME {
        Some(ConfigView { appearance: crate::config::AppearanceConfig { theme: theme_at(index), ..a }, ..c })
    } else if id == ID_COMBO_MATERIAL {
        Some(ConfigView { appearance: crate::config::AppearanceConfig { material: material_at(index), ..a }, ..c })
    } else if id == ID_COMBO_MOTION {
        Some(ConfigView { appearance: crate::config::AppearanceConfig { motion: motion_at(index), ..a }, ..c })
    } else if id == ID_COMBO_ACCENT {
        Some(ConfigView { appearance: crate::config::AppearanceConfig { accent: accent_at(index), ..a }, ..c })
    } else {
        None
    }
}

/// Mirror an appearance combo selection into the working copy so the
/// preview follows the user's edits; nothing is persisted. Returns whether
/// the control was an appearance combo.
pub fn apply_appearance_choice(draft: &mut SettingsDraft, id: isize, index: i32) -> (applied: bool)
    ensures
        match appearance_choice(old(draft).working()@, id, index as int) {
            Some(c) => applied && edited_to(*old(draft), *final(draft), c),
            None => !applied && *final(draft) == *old(draft),
        },
        applied == (ID_COMBO_THEME <= id <= ID_COMBO_ACCENT),
        applied ==> ({
            let before = old(draft).working()@;
            let after = final(draft).working()@;
            let (a, b) = (before.appearance, after.appearance);
            &&& after == ConfigView { appearance: b, ..before }
            &&& b.theme == (if id == ID_COMBO_THEME { theme_at(index as int) } else { a.theme })
            &&& b.material == (if id == ID_COMBO_MATERIAL { material_at(index as int) } else { a.material })
            &&& b.motion == (if id == ID_COMBO_MOTION { motion_at(index as int) } else { a.motion })
            &&& b.accent == (if id == ID_COMBO_ACCENT { accent_at(index as int) } else { a.accent })
        }),
{
    proof {
        lemma_appearance_combos_set_their_own_field(old(draft).working()@, id, index as int);
    }
    let mut cfg = draft.current().clone();
    if id == ID_COMBO_THEME {
        cfg.appearance.theme = theme_from_index(index);
    } else if id == ID_COMBO_MATERIAL {
        cfg.appearance.material = material_from_index(index);
    } else if id == ID_COMBO_MOTION {
        cfg.appearance.motion = motion_from_index(index);
    } else if id == ID_COMBO_ACCENT {
        cfg.appearance.accent = accent_from_index(index);
    } else {
        return false;
    }
    proof {
        assert(cfg@ =~= appearance_choice(old(draft).working()@, id, index as int).unwrap());
    }
    draft.set_current(cfg);
    true
}

/// The user edited `field`: a stored validation failure for that field is
/// dropped (the edits stay); a failure for another field is kept. Returns
/// whether a failure was dropped.
pub fn clear_field_error(draft: &mut SettingsDraft, field: &str) -> (cleared: bool)
    ensures
        cleared == (old(draft).stored_error() matches Some(e) && e.field@ == field@),
        cleared ==> edited_to(*old(draft), *final(draft), old(draft).working()@),
        !cleared ==> *final(draft) == *old(draft),
{
    let matches = match draft.error() {
        Some(e) => str_equals(e.field, field),
        None => false,
    };
    if !matches {
        return false;
    }
    let current = draft.current().clone();
    draft.set_current(current);
    true
}

/// Save is enabled exactly when the draft is dirty or the controls describe
/// a configuration other than the working copy.
pub fn apply_enabled(draft: &SettingsDraft, values: &ControlValues) -> (enabled: bool)
    ensures
        enabled == (draft.baseline()@ != draft.working()@ || config_from_controls(
            draft.working()@,
            *values,
        ) != draft.working()@),
{
    let from_controls = control_values_to_config(draft.current(), values);
    draft.is_dirty() || !configs_equal(&from_controls, draft.current())
}

/// Whether the inline error of `field` shows: the field's section is the
/// active one and the stored failure is for that field.
pub fn inline_error_visible(field: &str, active: Section, error: Option<&ConfigValidationError>) -> (visible: bool)
    ensures
        visible == (section_of_field_spec(field@) == Some(active) && (error matches Some(e)
            && e.field@ == field@)),
{
    let in_section = match section_of_field(field) {
        Some(s) => s == active,
        None => false,
    };
    let for_field = match error {
        Some(e) => str_equals(e.field, field),
        None => false,
    };
    in_section && for_field
}

/// What the status line currently reports.
#[derive(Debug, Clone, Copy, PartialEq, Eq, Structural)]
pub enum StatusKind {
    /// No status is shown.
    Clear,
    Info,
    Error,
}

/// The screen-reader phrasing of a status: `Alert: ` for errors,
/// `Status: ` for information, nothing when there is no status.
pub open spec fn announcement_prefix(kind: StatusKind) -> Seq<char> {
    match kind {
        StatusKind::Error => "Alert: "@,
        StatusKind::Info => "Status: "@,
        StatusKind::Clear => Seq::empty(),
    }
}

/// The text of the status line's screen-reader mirror.
pub fn status_announcement(kind: StatusKind, text: &str) -> (r: String)
    ensures
        r@ == announcement_prefix(kind) + text@,
{
    let prefix = match kind {
        StatusKind::Error => "Alert: ",
        StatusKind::Info => "Status: ",
        StatusKind::Clear => "",
    };
    proof {
        reveal_strlit("");
    }
    String::from_str(prefix).concat(text)
}

/// The text color role of a static control.
#[derive(Debug, Clone, Copy, PartialEq, Eq, Structural)]
pub enum TextTone {
    Primary,
    Secondary,
    Error,
}

/// Section titles are primary text, inline errors and an error status line
/// use the error color, everything else is secondary text.
pub open spec fn tone_of(id: isize, status: StatusKind) -> TextTone {
    if id == ID_ST_STATUS {
        if status == StatusKind::Error {
            TextTone::Error
        } else {
            TextTone::Secondary
        }
    } else if ID_ERR_VOL_STEP <= id <= ID_ERR_LIMIT_DUR {
        TextTone::Error
    } else if ID_HDR_GENERAL <= id <= ID_HDR_STORAGE {
        TextTone::Primary
    } else {
        TextTone::Secondary
    }
}

pub fn static_tone(id: isize, status: StatusKind) -> (r: TextTone)
    ensures
        r == tone_of(id, status),
{
    if id == ID_ST_STATUS {
        if status == StatusKind::Error {
            TextTone::Error
        } else {
            TextTone::Secondary
        }
    } else if ID_ERR_VOL_STEP <= id && id <= ID_ERR_LIMIT_DUR {
        TextTone::Error
    } else if ID_HDR_GENERAL <= id && id <= ID_HDR_STORAGE {
        TextTone::Primary
    } else {
        TextTone::Secondary
    }
}

/// How the window reports the host's apply result.
#[derive(Debug, Clone, PartialEq, Eq)]
pub struct ApplyFeedback {
    /// The status line's kind.
    pub kind: StatusKind,
    /// The status line's text.
    pub text: String,
    /// The field to focus, for a validation failure.
    pub focus_field: Option<&'static str>,
    /// The section to switch to so the field's inline error shows.
    pub focus_section: Option<Section>,
}

/// The report of an apply result: a saved note; a validation failure as
/// `"<field>: <message>"` with its field and section to focus; or, when
/// saving itself failed, `"Could not save config: "` followed by
/// `failure_detail`, the failure's own description.
pub fn apply_feedback(result: &Result<Config, ConfigError>, failure_detail: &str) -> (r: ApplyFeedback)
    ensures
        match result {
            Ok(_) => {
                &&& r.kind == StatusKind::Info
                &&& r.text@ == "Changes saved."@
                &&& r.focus_field is None
                &&& r.focus_section is None
            },
            Err(ConfigError::Validation(e)) => {
                &&& r.kind == StatusKind::Error
                &&& r.text@ == describe(e.field@, e.message@)
                &&& r.focus_field == Some(e.field)
                &&& r.focus_section == section_of_field_spec(e.field@)
            },
            Err(_) => {
                &&& r.kind == StatusKind::Error
                &&& r.text@ == "Could not save config: "@ + failure_detail@
                &&& r.focus_field is None
                &&& r.focus_section is None
            },
        },
{
    match result {
        Ok(_) => ApplyFeedback {
            kind: StatusKind::Info,
            text: String::from_str("Changes saved."),
            focus_field: None,
            focus_section: None,
        },
        Err(ConfigError::Validation(e)) => ApplyFeedback {
            kind: StatusKind::Error,
            text: e.to_text(),
            focus_field: Some(e.field),
            focus_section: section_of_field(e.field),
        },
        Err(_) => ApplyFeedback {
            kind: StatusKind::Error,
            text: String::from_str("Could not save config: ").concat(failure_detail),
            focus_field: None,
            focus_section: None,
        },
    }
}

/// The Tab cycle: the window itself (the section rail), then the active
/// section's controls in order, then the footer buttons and Close.
pub fn tab_cycle<H: Copy>(window: H, active_tabs: &Vec<H>, footer: [H; 4]) -> (r: Vec<H>)
    ensures
        r@ == seq![window] + active_tabs@ + footer@,
{
    let mut cycle: Vec<H> = Vec::new();
    cycle.push(window);
    let n = active_tabs.len();
    let mut i: usize = 0;
    while i < n
        invariant
            n == active_tabs.len(),
            i <= n,
            cycle@ == seq![window] + active_tabs@.take(i as int),
        decreases n - i,
    {
        cycle.push(active_tabs[i]);
        proof {
            assert(active_tabs@.take(i as int + 1) =~= active_tabs@.take(i as int).push(active_tabs@[i as int]));
        }
        i = i + 1;
    }
    proof {
        assert(active_tabs@.take(n as int) =~= active_tabs@);
        assert(footer@.take(0) =~= Seq::<H>::empty());
    }
    let mut j: usize = 0;
    while j < 4
        invariant
            j <= 4,
            cycle@ == seq![window] + active_tabs@ + footer@.take(j as int),
        decreases 4 - j,
    {
        cycle.push(footer[j]);
        proof {
            assert(footer@.take(j as int + 1) =~= footer@.take(j as int).push(footer@[j as int]));
        }
        j = j + 1;
    }
    proof {
        assert(footer@.take(4) =~= footer@);
    }
    cycle
}

/// No entry is listed twice.
pub open spec fn no_repeats(entries: Seq<Seq<char>>) -> bool {
    forall|i: int, j: int| 0 <= i < j < entries.len() ==> entries[i] != entries[j]
}

proof fn lemma_push_new_keeps_no_repeats(entries: Seq<Seq<char>>, e: Seq<char>)
    requires
        no_repeats(entries),
        !entries.contains(e),
    ensures
        no_repeats(entries.push(e)),
{
    let out = entries.push(e);
    assert forall|i: int, j: int| 0 <= i < j < out.len() implies out[i] != out[j] by {
        if j == entries.len() {
            assert(out[i] == entries[i]);
            assert(entries.contains(entries[i]));
        } else {
            assert(out[i] == entries[i] && out[j] == entries[j]);
        }
    }
}

proof fn lemma_merged_keeps_no_repeats(entries: Seq<Seq<char>>, extra: Seq<Seq<char>>)
    requires
        no_repeats(entries),
    ensures
        no_repeats(merged(entries, extra)),
    decreases extra.len(),
{
    if extra.len() > 0 {
        lemma_merged_keeps_no_repeats(entries, extra.drop_last());
        let m = merged(entries, extra.drop_last());
        if !m.contains(extra.last()) {
            lemma_push_new_keeps_no_repeats(m, extra.last());
        }
    }
}

proof fn lemma_without_is_drawn_from(entries: Seq<Seq<char>>, name: Seq<char>)
    ensures
        forall|x: Seq<char>| without(entries, name).contains(x) ==> entries.contains(x),
    decreases entries.len(),
{
    if entries.len() > 0 {
        let rest = entries.drop_last();
        lemma_without_is_drawn_from(rest, name);
        assert forall|x: Seq<char>| without(entries, name).contains(x) implies entries.contains(x) by {
            let kept = without(rest, name);
            if kept.contains(x) {
                assert(rest.contains(x));
                let k = choose|k: int| 0 <= k < rest.len() && rest[k] == x;
                assert(rest[k] == entries[k]);
                assert(entries[k] == x);
            } else {
                assert(x == entries.last());
                assert(entries[entries.len() - 1] == x);
            }
        }
    }
}

proof fn lemma_without_keeps_no_repeats(entries: Seq<Seq<char>>, name: Seq<char>)
    requires
        no_repeats(entries),
    ensures
        no_repeats(without(entries, name)),
    decreases entries.len(),
{
    if entries.len() > 0 {
        let rest = entries.drop_last();
        assert(no_repeats(rest)) by {
            assert forall|i: int, j: int| 0 <= i < j < rest.len() implies rest[i] != rest[j] by {
                assert(rest[i] == entries[i] && rest[j] == entries[j]);
            }
        }
        lemma_without_keeps_no_repeats(rest, name);
        let kept = without(rest, name);
        if entries.last() != name {
            lemma_without_is_drawn_from(rest, name);
            if kept.contains(entries.last()) {
                assert(rest.contains(entries.last()));
                let k = choose|k: int| 0 <= k < rest.len() && rest[k] == entries.last();
                assert(rest[k] == entries[k]);
                assert(entries[k] == entries[entries.len() - 1]);
                assert(false);
            }
            lemma_push_new_keeps_no_repeats(kept, entries.last());
        }
    }
}

/// Blacklist edits never list an entry twice: from a blacklist without
/// repeats, adding a new entry, merging a recommended list and removing a
/// name all give a blacklist without repeats.
pub proof fn lemma_edits_keep_entries_unique(
    entries: Seq<Seq<char>>,
    added: Seq<char>,
    extra: Seq<Seq<char>>,
    removed: Seq<char>,
)
    requires
        no_repeats(entries),
    ensures
        !entries.contains(added) ==> no_repeats(entries.push(added)),
        no_repeats(merged(entries, extra)),
        no_repeats(without(entries, removed)),
{
    if !entries.contains(added) {
        lemma_push_new_keeps_no_repeats(entries, added);
    }
    lemma_merged_keeps_no_repeats(entries, extra);
    lemma_without_keeps_no_repeats(entries, removed);
}

/// A key pressed while the window itself (the section rail or strip) has
/// the focus.
#[derive(Debug, Clone, Copy, PartialEq, Eq, Structural)]
pub enum NavKey {
    Escape,
    Tab,
    Enter,
    Up,
    Down,
    Left,
    Right,
    Other,
}

/// Something the user did in the settings window.
#[derive(Debug, Clone, Copy, PartialEq, Eq, Structural)]
pub enum SettingsEvent {
    /// A button or the checkbox was clicked.
    Clicked(isize),
    /// A combo box selection changed.
    ComboChanged(isize),
    /// An edit field's text changed.
    EditChanged(isize),
    /// A key on the rail or strip.
    Key(NavKey),
}

/// What the window does in answer.
#[derive(Debug, Clone, Copy, PartialEq, Eq)]
pub enum SettingsReaction {
    /// Ask the host to validate and save the draft.
    Apply,
    /// Ask the host to reset the draft to the baseline.
    Reset,
    /// Ask the host to discard the edits and close.
    Cancel,
    /// Ask the host to open the configuration's location.
    OpenConfig,
    /// Close (hide) the window.
    Close,
    /// Add the typed blacklist name ([`add_entry`]), then empty and focus
    /// the name field.
    AddTypedEntry,
    /// Remove the selected blacklist entry ([`remove_entry`]).
    RemoveSelectedEntry,
    /// Empty the blacklist ([`clear_entries`]).
    ClearEntries,
    /// Merge the recommended list for the selected modifier
    /// ([`merge_entries`]).
    MergeRecommended,
    /// Mirror the appearance combo into the draft
    /// ([`apply_appearance_choice`]), then refresh the Save button.
    ApplyAppearance(isize),
    /// Drop that field's stored failure ([`clear_field_error`]), then
    /// refresh the Save button.
    ClearFieldError(&'static str),
    /// Only refresh the Save button ([`apply_enabled`]).
    RefreshSave,
    /// Move the focus to the active section's first control.
    FocusSection,
    /// Show this section.
    SelectSection(Section),
    /// Not handled here: the default window behavior applies.
    Unhandled,
}

/// The answer to a click.
pub open spec fn click_reaction(id: isize) -> SettingsReaction {
    if id == ID_BTN_APPLY {
        SettingsReaction::Apply
    } else if id == ID_BTN_RESET {
        SettingsReaction::Reset
    } else if id == ID_BTN_CANCEL {
        SettingsReaction::Cancel
    } else if id == ID_BTN_CLOSE {
        SettingsReaction::Close
    } else if id == ID_BTN_OPEN_CONFIG {
        SettingsReaction::OpenConfig
    } else if id == ID_BTN_BLACKLIST_ADD {
        SettingsReaction::AddTypedEntry
    } else if id == ID_BTN_BLACKLIST_REMOVE {
        SettingsReaction::RemoveSelectedEntry
    } else if id == ID_BTN_BLACKLIST_CLEAR {
        SettingsReaction::ClearEntries
    } else if id == ID_BTN_BLACKLIST_RECOMMEND {
        SettingsReaction::MergeRecommended
    } else if id == ID_CHK_BEEP {
        SettingsReaction::RefreshSave
    } else {
        SettingsReaction::Unhandled
    }
}

/// The answer to a key on the rail: Escape closes, Tab and Enter enter the
/// active section, Up/Down move along the rail and Left/Right along the
/// narrow strip (wrapping), anything else is not handled.
pub open spec fn key_reaction(narrow: bool, section: Section, key: NavKey) -> SettingsReaction {
    match key {
        NavKey::Escape => SettingsReaction::Close,
        NavKey::Tab | NavKey::Enter => SettingsReaction::FocusSection,
        NavKey::Up => if !narrow {
            SettingsReaction::SelectSection(section_at((position(section) + 5) % 6))
        } else {
            SettingsReaction::Unhandled
        },
        NavKey::Down => if !narrow {
            SettingsReaction::SelectSection(section_at((position(section) + 1) % 6))
        } else {
            SettingsReaction::Unhandled
        },
        NavKey::Left => if narrow {
            SettingsReaction::SelectSection(section_at((position(section) + 5) % 6))
        } else {
            SettingsReaction::Unhandled
        },
        NavKey::Right => if narrow {
            SettingsReaction::SelectSection(section_at((position(section) + 1) % 6))
        } else {
            SettingsReaction::Unhandled
        },
        NavKey::Other => SettingsReaction::Unhandled,
    }
}

/// Decide the window's answer to an event in the active `section`, with the
/// rail (`narrow == false`) or the strip (`narrow == true`).
pub fn settings_reaction(narrow: bool, section: Section, event: SettingsEvent) -> (r: SettingsReaction)
    ensures
        match event {
            SettingsEvent::Clicked(id) => r == click_reaction(id),
            SettingsEvent::ComboChanged(id) => r == (if ID_COMBO_THEME <= id <= ID_COMBO_ACCENT {
                SettingsReaction::ApplyAppearance(id)
            } else {
                SettingsReaction::RefreshSave
            }),
            SettingsEvent::EditChanged(id) => match field_of_control(id) {
                Some(f) => r matches SettingsReaction::ClearFieldError(g) && g@ == f,
                None => r == SettingsReaction::RefreshSave,
            },
            SettingsEvent::Key(k) => r == key_reaction(narrow, section, k),
        },
{
    match event {
        SettingsEvent::Clicked(id) => {
            if id == ID_BTN_APPLY {
                SettingsReaction::Apply
            } else if id == ID_BTN_RESET {
                SettingsReaction::Reset
            } else if id == ID_BTN_CANCEL {
                SettingsReaction::Cancel
            } else if id == ID_BTN_CLOSE {
                SettingsReaction::Close
            } else if id == ID_BTN_OPEN_CONFIG {
                SettingsReaction::OpenConfig
            } else if id == ID_BTN_BLACKLIST_ADD {
                SettingsReaction::AddTypedEntry
            } else if id == ID_BTN_BLACKLIST_REMOVE {
                SettingsReaction::RemoveSelectedEntry
            } else if id == ID_BTN_BLACKLIST_CLEAR {
                SettingsReaction::ClearEntries
            } else if id == ID_BTN_BLACKLIST_RECOMMEND {
                SettingsReaction::MergeRecommended
            } else if id == ID_CHK_BEEP {
                SettingsReaction::RefreshSave
            } else {
                SettingsReaction::Unhandled
            }
        },
        SettingsEvent::ComboChanged(id) => {
            if ID_COMBO_THEME <= id && id <= ID_COMBO_ACCENT {
                SettingsReaction::ApplyAppearance(id)
            } else {
                SettingsReaction::RefreshSave
            }
        },
        SettingsEvent::EditChanged(id) => match field_for_control(id) {
            Some(f) => SettingsReaction::ClearFieldError(f),
            None => SettingsReaction::RefreshSave,
        },
        SettingsEvent::Key(k) => match k {
            NavKey::Escape => SettingsReaction::Close,
            NavKey::Tab | NavKey::Enter => SettingsReaction::FocusSection,
            NavKey::Up => if !narrow {
                SettingsReaction::SelectSection(section.previous())
            } else {
                SettingsReaction::Unhandled
            },
            NavKey::Down => if !narrow {
                SettingsReaction::SelectSection(section.next())
            } else {
                SettingsReaction::Unhandled
            },
            NavKey::Left => if narrow {
                SettingsReaction::SelectSection(section.previous())
            } else {
                SettingsReaction::Unhandled
            },
            NavKey::Right => if narrow {
                SettingsReaction::SelectSection(section.next())
            } else {
                SettingsReaction::Unhandled
            },
            NavKey::Other => SettingsReaction::Unhandled,
        },
    }
}

/// Each of the four appearance combos (theme, material, motion, accent; the
/// ids `ID_COMBO_THEME..=ID_COMBO_ACCENT`) sets exactly its own field from
/// the selected index and leaves every other setting alone; any other
/// control is not an appearance choice.
pub proof fn lemma_appearance_combos_set_their_own_field(c: ConfigView, id: isize, index: int)
    ensures
        appearance_choice(c, id, index) is Some <==> (ID_COMBO_THEME <= id <= ID_COMBO_ACCENT),
        ID_COMBO_THEME <= id <= ID_COMBO_ACCENT ==> ({
            let n = appearance_choice(c, id, index).unwrap();
            let (a, b) = (c.appearance, n.appearance);
            &&& n == ConfigView { appearance: b, ..c }
            &&& b.theme == (if id == ID_COMBO_THEME { theme_at(index) } else { a.theme })
            &&& b.material == (if id == ID_COMBO_MATERIAL { material_at(index) } else { a.material })
            &&& b.motion == (if id == ID_COMBO_MOTION { motion_at(index) } else { a.motion })
            &&& b.accent == (if id == ID_COMBO_ACCENT { accent_at(index) } else { a.accent })
        }),
{
}

} // verus!
