//! Shared, platform-neutral UI contracts.

pub mod canvas;
pub mod capabilities;
pub mod draft;
pub mod model;
pub mod platform;
pub mod renderer;
pub mod signal_rail;
pub mod surface;
pub mod theme;

pub use capabilities::{resolve_material, resolve_motion, ResolvedMaterial, UiCapabilities};
pub use draft::SettingsDraft;
pub use model::{
    AccentMode, AppAction, AppState, MaterialMode, MotionMode, SurfaceId, SurfaceVisibility,
    SurfaceVisibilityState, ThemeMode, UiStatus,
};
pub use renderer::HostHandle;
pub use signal_rail::{rail_apply_key, RailKey, SignalRail};
pub use surface::{
    place_centered, place_mixer_above_overlay, place_overlay, SurfaceRect, SurfaceSize, WorkArea,
};
pub use theme::{accent_color, accent_color_for, Rgba, VolumeThresholdColors};
