//! Platform-neutral state and action contracts for UI surfaces.
//!
//! The host owns audio/configuration mutation, publishes confirmed
//! [`AppState`], and handles [`AppAction`] values emitted by any renderer.

use vstd::prelude::*;

verus! {

/// A user-visible application surface that can be shown or hidden.
#[derive(Debug, Clone, Copy, PartialEq, Eq, Hash, Structural)]
pub enum SurfaceId {
    Overlay,
    Mixer,
    Settings,
    Help,
    Tray,
}

/// Requested application theme.
#[derive(Debug, Clone, Copy, PartialEq, Eq, Structural)]
pub enum ThemeMode {
    System,
    Light,
    Dark,
}

impl Default for ThemeMode {
    fn default() -> (r: Self)
        ensures
            r == ThemeMode::System,
    {
        ThemeMode::System
    }
}

/// Requested surface material treatment.
#[derive(Debug, Clone, Copy, PartialEq, Eq, Structural)]
pub enum MaterialMode {
    Auto,
    Translucent,
    Opaque,
}

impl Default for MaterialMode {
    fn default() -> (r: Self)
        ensures
            r == MaterialMode::Auto,
    {
        MaterialMode::Auto
    }
}

/// Requested animation policy.
#[derive(Debug, Clone, Copy, PartialEq, Eq, Structural)]
pub enum MotionMode {
    Full,
    Reduced,
    Disabled,
}

impl Default for MotionMode {
    fn default() -> (r: Self)
        ensures
            r == MotionMode::Full,
    {
        MotionMode::Full
    }
}

/// Requested accent color.
#[derive(Debug, Clone, Copy, PartialEq, Eq, Structural)]
pub enum AccentMode {
    System,
    Blue,
    Green,
    Purple,
    Orange,
}

impl Default for AccentMode {
    fn default() -> (r: Self)
        ensures
            r == AccentMode::System,
    {
        AccentMode::System
    }
}

/// Visibility state for a surface.
#[derive(Debug, Clone, Copy, PartialEq, Eq, Structural)]
pub enum SurfaceVisibility {
    Hidden,
    Visible,
}

impl Default for SurfaceVisibility {
    fn default() -> (r: Self)
        ensures
            r == SurfaceVisibility::Hidden,
    {
        SurfaceVisibility::Hidden
    }
}

impl SurfaceVisibility {
    pub fn is_visible(self) -> (r: bool)
        ensures
            r == (self == SurfaceVisibility::Visible),
    {
        matches!(self, SurfaceVisibility::Visible)
    }

    pub fn is_hidden(self) -> (r: bool)
        ensures
            r == (self == SurfaceVisibility::Hidden),
    {
        matches!(self, SurfaceVisibility::Hidden)
    }
}

/// The host-reported status of the shared UI state.
#[derive(Debug, Clone, PartialEq, Eq)]
pub enum UiStatus {
    Ready,
    Syncing,
    Error(String),
}

impl Default for UiStatus {
    fn default() -> (r: Self)
        ensures
            r == UiStatus::Ready,
    {
        UiStatus::Ready
    }
}

/// Compact per-surface visibility storage.
#[derive(Debug, Clone, Copy, PartialEq, Eq, Structural)]
pub struct SurfaceVisibilityState {
    pub overlay: SurfaceVisibility,
    pub mixer: SurfaceVisibility,
    pub settings: SurfaceVisibility,
    pub help: SurfaceVisibility,
    pub tray: SurfaceVisibility,
}

/// Every surface hidden.
pub open spec fn all_hidden() -> SurfaceVisibilityState {
    SurfaceVisibilityState {
        overlay: SurfaceVisibility::Hidden,
        mixer: SurfaceVisibility::Hidden,
        settings: SurfaceVisibility::Hidden,
        help: SurfaceVisibility::Hidden,
        tray: SurfaceVisibility::Hidden,
    }
}

impl Default for SurfaceVisibilityState {
    fn default() -> (r: Self)
        ensures
            r == all_hidden(),
    {
        SurfaceVisibilityState {
            overlay: SurfaceVisibility::Hidden,
            mixer: SurfaceVisibility::Hidden,
            settings: SurfaceVisibility::Hidden,
            help: SurfaceVisibility::Hidden,
            tray: SurfaceVisibility::Hidden,
        }
    }
}

impl SurfaceVisibilityState {
    /// The visibility recorded for `surface`.
    pub open spec fn of(self, surface: SurfaceId) -> SurfaceVisibility {
        match surface {
            SurfaceId::Overlay => self.overlay,
            SurfaceId::Mixer => self.mixer,
            SurfaceId::Settings => self.settings,
            SurfaceId::Help => self.help,
            SurfaceId::Tray => self.tray,
        }
    }

    /// `self` with only `surface` changed to `visibility`.
    pub open spec fn with(self, surface: SurfaceId, visibility: SurfaceVisibility) -> Self {
        match surface {
            SurfaceId::Overlay => SurfaceVisibilityState { overlay: visibility, ..self },
            SurfaceId::Mixer => SurfaceVisibilityState { mixer: visibility, ..self },
            SurfaceId::Settings => SurfaceVisibilityState { settings: visibility, ..self },
            SurfaceId::Help => SurfaceVisibilityState { help: visibility, ..self },
            SurfaceId::Tray => SurfaceVisibilityState { tray: visibility, ..self },
        }
    }

    pub fn get(self, surface: SurfaceId) -> (r: SurfaceVisibility)
        ensures
            r == self.of(surface),
    {
        match surface {
            SurfaceId::Overlay => self.overlay,
            SurfaceId::Mixer => self.mixer,
            SurfaceId::Settings => self.settings,
            SurfaceId::Help => self.help,
            SurfaceId::Tray => self.tray,
        }
    }

    pub fn set(&mut self, surface: SurfaceId, visibility: SurfaceVisibility)
        ensures
            *final(self) == old(self).with(surface, visibility),
    {
        match surface {
            SurfaceId::Overlay => self.overlay = visibility,
            SurfaceId::Mixer => self.mixer = visibility,
            SurfaceId::Settings => self.settings = visibility,
            SurfaceId::Help => self.help = visibility,
            SurfaceId::Tray => self.tray = visibility,
        }
    }
}

/// Setting one surface changes exactly that surface: the new visibility is
/// read back for it, and every other surface keeps its old visibility.
pub proof fn lemma_with_changes_only_the_requested_surface(
    state: SurfaceVisibilityState,
    surface: SurfaceId,
    visibility: SurfaceVisibility,
    other: SurfaceId,
)
    ensures
        state.with(surface, visibility).of(surface) == visibility,
        other != surface ==> state.with(surface, visibility).of(other) == state.of(other),
{
}

/// Confirmed state published by the application host to every renderer.
#[derive(Debug, Clone, PartialEq)]
pub struct AppState {
    /// Confirmed default-output volume, normalized to an integer percentage.
    pub volume_percent: u8,
    /// Confirmed mute state.
    pub muted: bool,
    /// Stable identifier or user-facing name of the active output device.
    pub device: Option<String>,
    /// Current visibility for each supported UI surface.
    pub surfaces: SurfaceVisibilityState,
    /// Appearance preferences currently in effect.
    pub theme: ThemeMode,
    pub material: MaterialMode,
    pub motion: MotionMode,
    /// Host/audio synchronization status.
    pub status: UiStatus,
}

impl Default for AppState {
    fn default() -> (r: Self)
        ensures
            r.volume_percent == 0,
            !r.muted,
            r.device is None,
            r.surfaces == all_hidden(),
            r.theme == ThemeMode::System,
            r.material == MaterialMode::Auto,
            r.motion == MotionMode::Full,
            r.status == UiStatus::Ready,
    {
        AppState {
            volume_percent: 0,
            muted: false,
            device: None,
            surfaces: SurfaceVisibilityState::default(),
            theme: ThemeMode::default(),
            material: MaterialMode::default(),
            motion: MotionMode::default(),
            status: UiStatus::default(),
        }
    }
}

impl AppState {
    /// Construct confirmed state from an already-clamped volume percentage;
    /// every preference keeps its default.
    pub fn from_audio(volume_percent: u8, muted: bool, device: Option<String>) -> (r: Self)
        ensures
            r.volume_percent == volume_percent,
            r.muted == muted,
            r.device == device,
            r.surfaces == all_hidden(),
            r.theme == ThemeMode::System,
            r.material == MaterialMode::Auto,
            r.motion == MotionMode::Full,
            r.status == UiStatus::Ready,
    {
        AppState {
            volume_percent,
            muted,
            device,
            surfaces: SurfaceVisibilityState::default(),
            theme: ThemeMode::default(),
            material: MaterialMode::default(),
            motion: MotionMode::default(),
            status: UiStatus::default(),
        }
    }

    pub fn is_visible(&self, surface: SurfaceId) -> (r: bool)
        ensures
            r == (self.surfaces.of(surface) == SurfaceVisibility::Visible),
    {
        self.surfaces.get(surface).is_visible()
    }

    pub fn set_visibility(&mut self, surface: SurfaceId, visibility: SurfaceVisibility)
        ensures
            *final(self) == (AppState { surfaces: old(self).surfaces.with(surface, visibility), ..*old(self) }),
    {
        self.surfaces.set(surface, visibility);
    }

    pub fn show(&mut self, surface: SurfaceId)
        ensures
            *final(self) == (AppState {
                surfaces: old(self).surfaces.with(surface, SurfaceVisibility::Visible),
                ..*old(self)
            }),
    {
        self.set_visibility(surface, SurfaceVisibility::Visible);
    }

    pub fn hide_surface(&mut self, surface: SurfaceId)
        ensures
            *final(self) == (AppState {
                surfaces: old(self).surfaces.with(surface, SurfaceVisibility::Hidden),
                ..*old(self)
            }),
    {
        self.set_visibility(surface, SurfaceVisibility::Hidden);
    }

    /// Flip the visibility of `surface` and return the new visibility.
    pub fn toggle(&mut self, surface: SurfaceId) -> (r: SurfaceVisibility)
        ensures
            r == (if old(self).surfaces.of(surface) == SurfaceVisibility::Visible {
                SurfaceVisibility::Hidden
            } else {
                SurfaceVisibility::Visible
            }),
            *final(self) == (AppState { surfaces: old(self).surfaces.with(surface, r), ..*old(self) }),
    {
        let visibility = if self.is_visible(surface) {
            SurfaceVisibility::Hidden
        } else {
            SurfaceVisibility::Visible
        };
        self.set_visibility(surface, visibility);
        visibility
    }
}

/// Toggling the same surface twice restores the starting state.
pub proof fn lemma_toggle_twice_restores(state: AppState, surface: SurfaceId)
    ensures
        ({
            let once = state.surfaces.of(surface) != SurfaceVisibility::Visible;
            let v1 = if once { SurfaceVisibility::Visible } else { SurfaceVisibility::Hidden };
            let s1 = state.surfaces.with(surface, v1);
            let v2 = if s1.of(surface) == SurfaceVisibility::Visible {
                SurfaceVisibility::Hidden
            } else {
                SurfaceVisibility::Visible
            };
            s1.with(surface, v2) == state.surfaces
        }),
{
}

/// Host-directed intent emitted by UI surfaces.
#[derive(Debug, Clone, PartialEq)]
pub enum AppAction {
    SetVolumePercent { percent: u16 },
    AdjustVolume { delta_percent: i16 },
    ToggleMute,
    SetMute { muted: bool },
    ResetVolume,
    ShowSurface(SurfaceId),
    HideSurface(SurfaceId),
    ToggleSurface(SurfaceId),
    ApplyConfig,
    CancelConfig,
    ResetConfig,
    SetTheme(ThemeMode),
    SetMaterial(MaterialMode),
    SetMotion(MotionMode),
    OpenConfigLocation,
    AddBlacklistEntry(String),
    RemoveBlacklistEntry(String),
    ClearBlacklist,
    ApplyRecommendedBlacklist,
    Exit,
}

impl AppAction {
    /// A volume percentage safe to pass to an audio host: only a
    /// `SetVolumePercent` carries one, clamped to at most 100.
    pub fn normalized(&self) -> (r: Option<u8>)
        ensures
            match *self {
                AppAction::SetVolumePercent { percent } => r == Some(
                    (if percent <= 100 { percent } else { 100 }) as u8,
                ),
                _ => r is None,
            },
    {
        match self {
            AppAction::SetVolumePercent { percent } => {
                let p: u16 = if *percent <= 100 { *percent } else { 100 };
                Some(p as u8)
            },
            _ => None,
        }
    }
}

} // verus!
