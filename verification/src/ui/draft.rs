//! Platform-neutral in-memory edit draft for the Settings surface.
//!
//! Edits never touch disk directly: the draft keeps the last confirmed
//! baseline and the working copy, knows whether they differ, and keeps the
//! field-specific validation failure of the latest commit attempt. A failed
//! commit leaves the edits intact so the user can retry.

use vstd::prelude::*;
use crate::config::{
    configs_equal, first_failure, fail, validate, Config, ConfigError, ConfigValidationError,
    ConfigView,
};

verus! {

/// What a draft holds, as values: the baseline, the working copy and the
/// stored validation failure.
pub struct DraftState {
    pub baseline: ConfigView,
    pub working: ConfigView,
    pub error: Option<ConfigValidationError>,
}

/// A call that can change a draft.
pub enum DraftEvent {
    Replace(ConfigView),
    SetCurrent(ConfigView),
    Reset,
    Cancel,
    Validate,
    /// A commit whose persistence returned this saved configuration.
    CommitSaved(ConfigView),
    /// A commit refused with this validation failure.
    CommitRefused(ConfigValidationError),
    /// A commit whose persistence failed otherwise.
    CommitFailed,
}

/// The state of a draft just seeded from `config`.
pub open spec fn fresh(config: ConfigView) -> DraftState {
    DraftState { baseline: config, working: config, error: None }
}

/// What one call does to a draft.
pub open spec fn after(s: DraftState, e: DraftEvent) -> DraftState {
    match e {
        DraftEvent::Replace(c) => DraftState { baseline: c, error: None, ..s },
        DraftEvent::SetCurrent(c) => DraftState { working: c, error: None, ..s },
        DraftEvent::Reset | DraftEvent::Cancel => DraftState { working: s.baseline, error: None, ..s },
        DraftEvent::Validate => s,
        DraftEvent::CommitSaved(c) => DraftState { baseline: c, working: c, error: None },
        DraftEvent::CommitRefused(v) => DraftState { error: Some(v), ..s },
        DraftEvent::CommitFailed => DraftState { error: None, ..s },
    }
}

/// The event a commit outcome stands for.
pub open spec fn commit_event(r: Result<Config, ConfigError>) -> DraftEvent {
    match r {
        Ok(saved) => DraftEvent::CommitSaved(saved@),
        Err(ConfigError::Validation(v)) => DraftEvent::CommitRefused(v),
        Err(_) => DraftEvent::CommitFailed,
    }
}

/// The state after a sequence of calls.
pub open spec fn run(s: DraftState, events: Seq<DraftEvent>) -> DraftState
    decreases events.len(),
{
    if events.len() == 0 {
        s
    } else {
        after(run(s, events.drop_last()), events.last())
    }
}

/// The validation failure of the last call that is not a `validate`, when
/// that call is a refused commit; otherwise none.
pub open spec fn last_refusal(events: Seq<DraftEvent>) -> Option<ConfigValidationError>
    decreases events.len(),
{
    if events.len() == 0 {
        None
    } else {
        match events.last() {
            DraftEvent::Validate => last_refusal(events.drop_last()),
            DraftEvent::CommitRefused(v) => Some(v),
            _ => None,
        }
    }
}

/// The configuration given by the last `replace` or successful commit, or
/// `seed` when there was none.
pub open spec fn last_baseline(seed: ConfigView, events: Seq<DraftEvent>) -> ConfigView
    decreases events.len(),
{
    if events.len() == 0 {
        seed
    } else {
        match events.last() {
            DraftEvent::Replace(c) => c,
            DraftEvent::CommitSaved(c) => c,
            _ => last_baseline(seed, events.drop_last()),
        }
    }
}

/// Over any sequence of calls on a draft seeded from `config`: the stored
/// failure is the validation failure of the last commit attempt when that
/// attempt was refused and nothing but `validate` came after it, and is
/// otherwise none; the baseline is the configuration of the last `replace`
/// or successful commit, and the seed when there was none.
pub proof fn lemma_draft_history(config: ConfigView, events: Seq<DraftEvent>)
    ensures
        run(fresh(config), events).error == last_refusal(events),
        run(fresh(config), events).baseline == last_baseline(config, events),
    decreases events.len(),
{
    if events.len() > 0 {
        lemma_draft_history(config, events.drop_last());
    }
}


/// An in-memory edit buffer layered over the persisted [`Config`].
///
/// It is dirty exactly when the working copy differs from the baseline.
#[derive(Debug, PartialEq)]
pub struct SettingsDraft {
    original: Config,
    current: Config,
    dirty: bool,
    error: Option<ConfigValidationError>,
}

impl SettingsDraft {
    #[verifier::type_invariant]
    spec fn dirty_tracks_difference(self) -> bool {
        self.dirty == (self.original@ != self.current@)
    }

    /// The last confirmed baseline.
    pub closed spec fn baseline(self) -> Config {
        self.original
    }

    /// The working copy.
    pub closed spec fn working(self) -> Config {
        self.current
    }

    /// The validation failure stored by the latest failed commit, if any.
    pub closed spec fn stored_error(self) -> Option<ConfigValidationError> {
        self.error
    }

    /// The draft's state, as values.
    pub open spec fn state(self) -> DraftState {
        DraftState { baseline: self.baseline()@, working: self.working()@, error: self.stored_error() }
    }

    /// Move the four parts out, leaving a clean default draft behind.
    fn take_parts(&mut self) -> (r: (Config, Config, bool, Option<ConfigValidationError>))
        ensures
            r.0 == old(self).baseline(),
            r.1 == old(self).working(),
            r.3 == old(self).stored_error(),
            r.2 == (r.0@ != r.1@),
    {
        let mut taken = SettingsDraft {
            original: Config::default(),
            current: Config::default(),
            dirty: false,
            error: None,
        };
        std::mem::swap(&mut taken, self);
        proof {
            use_type_invariant(&taken);
        }
        let SettingsDraft { original, current, dirty, error } = taken;
        (original, current, dirty, error)
    }

    /// Seed a clean draft from a loaded config.
    pub fn new(config: Config) -> (r: Self)
        ensures
            r.baseline()@ == config@,
            r.working()@ == config@,
            r.stored_error() is None,
            r.state() == fresh(config@),
    {
        let original = config.clone();
        SettingsDraft { original, current: config, dirty: false, error: None }
    }

    /// Adopt `config` as the new confirmed baseline, keeping the working copy
    /// and clearing any stored validation failure.
    pub fn replace(&mut self, config: Config)
        ensures
            final(self).baseline()@ == config@,
            final(self).working() == old(self).working(),
            final(self).stored_error() is None,
            final(self).state() == after(old(self).state(), DraftEvent::Replace(config@)),
    {
        let (_original, current, _dirty, _error) = self.take_parts();
        let dirty = !configs_equal(&config, &current);
        *self = SettingsDraft { original: config, current, dirty, error: None };
    }

    /// Replace the working copy with the user's latest edits, keeping the
    /// baseline and clearing any stored validation failure.
    pub fn set_current(&mut self, config: Config)
        ensures
            final(self).baseline() == old(self).baseline(),
            final(self).working()@ == config@,
            final(self).stored_error() is None,
            final(self).state() == after(old(self).state(), DraftEvent::SetCurrent(config@)),
    {
        let (original, _current, _dirty, _error) = self.take_parts();
        let dirty = !configs_equal(&original, &config);
        *self = SettingsDraft { original, current: config, dirty, error: None };
    }

    /// Discard edits and restore the baseline.
    pub fn reset(&mut self)
        ensures
            final(self).baseline() == old(self).baseline(),
            final(self).working()@ == old(self).baseline()@,
            final(self).stored_error() is None,
            final(self).state() == after(old(self).state(), DraftEvent::Reset),
    {
        let (original, _current, _dirty, _error) = self.take_parts();
        let current = original.clone();
        *self = SettingsDraft { original, current, dirty: false, error: None };
    }

    /// Discard edits and restore the baseline; the same as [`Self::reset`].
    pub fn cancel(&mut self)
        ensures
            final(self).baseline() == old(self).baseline(),
            final(self).working()@ == old(self).baseline()@,
            final(self).stored_error() is None,
            final(self).state() == after(old(self).state(), DraftEvent::Cancel),
    {
        self.reset();
    }

    /// Strictly validate the working copy without changing the draft.
    pub fn validate(&self) -> (r: Result<(), ConfigValidationError>)
        ensures
            match r {
                Ok(()) => first_failure(self.working()@) is None,
                Err(e) => first_failure(self.working()@) == fail(e.field@, e.message@),
            },
    {
        validate(&self.current)
    }

    /// Hand the working copy to `persist` and adopt the outcome.
    ///
    /// - Success: the returned config becomes both the baseline and the
    ///   working copy; the stored failure is cleared.
    /// - Validation failure: it is stored and returned; the edits stay.
    /// - Any other failure: it is returned only, the stored failure is
    ///   cleared, and the edits stay.
    pub fn commit_with<F>(&mut self, persist: F) -> (r: Result<Config, ConfigError>)
        where
            F: FnOnce(&Config) -> Result<Config, ConfigError>,
        requires
            call_requires(persist, (&old(self).working(),)),
        ensures
            final(self).state() == after(old(self).state(), commit_event(r)),
            match r {
                Ok(saved) => {
                    &&& exists|out: Config|
                        call_ensures(persist, (&old(self).working(),), Ok(out)) && out@ == saved@
                    &&& final(self).baseline()@ == saved@
                    &&& final(self).working()@ == saved@
                    &&& final(self).stored_error() is None
                },
                Err(ConfigError::Validation(e)) => {
                    &&& call_ensures(persist, (&old(self).working(),), r)
                    &&& final(self).baseline() == old(self).baseline()
                    &&& final(self).working() == old(self).working()
                    &&& final(self).stored_error() == Some(e)
                },
                Err(_) => {
                    &&& call_ensures(persist, (&old(self).working(),), r)
                    &&& final(self).baseline() == old(self).baseline()
                    &&& final(self).working() == old(self).working()
                    &&& final(self).stored_error() is None
                },
            },
    {
        proof {
            use_type_invariant(&*self);
        }
        let outcome = persist(&self.current);
        match outcome {
            Ok(saved) => {
                let copy = saved.clone();
                let out = saved.clone();
                *self = SettingsDraft { original: saved, current: copy, dirty: false, error: None };
                Ok(out)
            },
            Err(ConfigError::Validation(validation_error)) => {
                let stored = validation_error.clone();
                let (original, current, dirty, _error) = self.take_parts();
                *self = SettingsDraft { original, current, dirty, error: Some(stored) };
                Err(ConfigError::Validation(validation_error))
            },
            Err(other) => {
                let (original, current, dirty, _error) = self.take_parts();
                *self = SettingsDraft { original, current, dirty, error: None };
                Err(other)
            },
        }
    }

    /// True exactly when the working copy differs from the baseline.
    pub fn is_dirty(&self) -> (r: bool)
        ensures
            r == (self.baseline()@ != self.working()@),
    {
        proof {
            use_type_invariant(self);
        }
        self.dirty
    }

    /// The last confirmed baseline.
    pub fn original(&self) -> (r: &Config)
        ensures
            *r == self.baseline(),
    {
        &self.original
    }

    /// The working copy the window is editing.
    pub fn current(&self) -> (r: &Config)
        ensures
            *r == self.working(),
    {
        &self.current
    }

    /// The validation failure from the most recent commit attempt, if any.
    pub fn error(&self) -> (r: Option<&ConfigValidationError>)
        ensures
            match r {
                Some(e) => self.stored_error() == Some(*e),
                None => self.stored_error() is None,
            },
    {
        self.error.as_ref()
    }
}

impl Clone for SettingsDraft {
    /// A draft with the same baseline, working copy and stored failure.
    fn clone(&self) -> (r: Self)
        ensures
            r.state() == self.state(),
    {
        proof {
            use_type_invariant(self);
        }
        let error = match &self.error {
            Some(e) => Some(e.clone()),
            None => None,
        };
        SettingsDraft {
            original: self.original.clone(),
            current: self.current.clone(),
            dirty: self.dirty,
            error,
        }
    }
}

} // verus!
