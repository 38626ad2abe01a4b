//! Verified core of VolumeControl: the platform-neutral UI contracts
//! (state model, capability-driven material ladder, surface placement,
//! Signal Rail, colors, settings draft), the configuration model and its
//! validation, the settings window's decisions, and the pure decision
//! tables of the native and webview hosts.

pub mod config;
pub mod settings_state;
pub mod settings_window;
pub mod text;
pub mod tray;
pub mod ui;
pub mod volume;
pub mod webview;
pub mod wheel;
