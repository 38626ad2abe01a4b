use volumectl::ui::model::{
    AppAction, AppState, MaterialMode, MotionMode, SurfaceId, SurfaceVisibility,
    SurfaceVisibilityState, ThemeMode, UiStatus,
};
use volumectl::ui::renderer::HostHandle;

#[test]
fn from_audio_keeps_already_clamped_percentage_and_defaults_preferences() {
    let state = AppState::from_audio(73, true, Some("Speakers".into()));

    assert_eq!(state.volume_percent, 73);
    assert!(state.muted);
    assert_eq!(state.device.as_deref(), Some("Speakers"));
    assert_eq!(state.theme, ThemeMode::System);
    assert!(!state.is_visible(SurfaceId::Overlay));
}

#[test]
fn visibility_helpers_change_only_the_requested_surface() {
    let mut state = AppState::default();

    state.show(SurfaceId::Mixer);
    assert!(state.is_visible(SurfaceId::Mixer));
    assert!(!state.is_visible(SurfaceId::Help));
    assert_eq!(state.toggle(SurfaceId::Mixer), SurfaceVisibility::Hidden);
    assert!(!state.is_visible(SurfaceId::Help));
}

#[test]
fn set_volume_action_normalizes_above_maximum() {
    let action = AppAction::SetVolumePercent { percent: 250 };

    assert_eq!(action.normalized(), Some(100));
    assert_eq!(AppAction::ToggleMute.normalized(), None);
}

#[test]
fn toggling_twice_restores_visibility_and_hide_hides() {
    let mut state = AppState::from_audio(10, false, None);
    let before = state.surfaces;
    assert_eq!(state.toggle(SurfaceId::Settings), SurfaceVisibility::Visible);
    assert_eq!(state.toggle(SurfaceId::Settings), SurfaceVisibility::Hidden);
    assert_eq!(state.surfaces, before);
    state.show(SurfaceId::Help);
    state.hide_surface(SurfaceId::Help);
    assert!(!state.is_visible(SurfaceId::Help));
    assert_eq!(state.surfaces, SurfaceVisibilityState::default());
}

#[test]
fn default_state_prefers_the_system_and_starts_hidden() {
    let state = AppState::default();
    assert_eq!(state.material, MaterialMode::Auto);
    assert_eq!(state.motion, MotionMode::Full);
    assert_eq!(state.status, UiStatus::Ready);
    for surface in [
        SurfaceId::Overlay,
        SurfaceId::Mixer,
        SurfaceId::Settings,
        SurfaceId::Help,
        SurfaceId::Tray,
    ] {
        assert!(!state.is_visible(surface));
    }
    assert_eq!(AppAction::SetVolumePercent { percent: 100 }.normalized(), Some(100));
    assert_eq!(AppAction::SetVolumePercent { percent: 0 }.normalized(), Some(0));
}

#[test]
fn host_handle_delivers_actions_in_order() {
    let received = std::sync::Arc::new(std::sync::Mutex::new(Vec::new()));
    let received_for_handler = std::sync::Arc::clone(&received);
    let host = HostHandle::new(move |action: AppAction| {
        received_for_handler.lock().expect("handler lock").push(action);
    });

    host.enqueue(AppAction::SetVolumePercent { percent: 55 });
    host.enqueue(AppAction::ToggleMute);
    host.enqueue(AppAction::ShowSurface(SurfaceId::Mixer));

    let guard = received.lock().expect("handler lock");
    assert_eq!(
        *guard,
        vec![
            AppAction::SetVolumePercent { percent: 55 },
            AppAction::ToggleMute,
            AppAction::ShowSurface(SurfaceId::Mixer),
        ]
    );
}

#[test]
fn host_handle_clones_share_the_same_handler() {
    let received = std::sync::Arc::new(std::sync::Mutex::new(Vec::new()));
    let received_for_handler = std::sync::Arc::clone(&received);
    let host = HostHandle::new(move |action: AppAction| {
        received_for_handler.lock().expect("handler lock").push(action);
    });
    let clone = host.clone();

    clone.enqueue(AppAction::ToggleMute);
    host.enqueue(AppAction::ResetVolume);

    let guard = received.lock().expect("handler lock");
    assert_eq!(*guard, vec![AppAction::ToggleMute, AppAction::ResetVolume]);
}

#[test]
fn host_handle_passes_raw_actions_and_host_normalizes() {
    let received = std::sync::Arc::new(std::sync::Mutex::new(Vec::new()));
    let received_for_handler = std::sync::Arc::clone(&received);
    let host = HostHandle::new(move |action: AppAction| {
        received_for_handler.lock().expect("handler lock").push(action);
    });

    host.enqueue(AppAction::SetVolumePercent { percent: 250 });

    let guard = received.lock().expect("handler lock");
    assert_eq!(*guard, vec![AppAction::SetVolumePercent { percent: 250 }]);
    assert_eq!(guard[0].normalized(), Some(100));
}
