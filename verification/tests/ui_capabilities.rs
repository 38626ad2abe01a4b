use volumectl::ui::capabilities::{resolve_material, resolve_motion, ResolvedMaterial, UiCapabilities};
use volumectl::ui::model::{MaterialMode, MotionMode};
use volumectl::ui::surface::WorkArea;

fn caps(compositor: bool, blur: bool, high_contrast: bool) -> UiCapabilities {
    UiCapabilities {
        compositor,
        blur,
        high_contrast,
        reduced_motion: false,
        dpi_percent: 100,
        work_area: WorkArea::new(0, 0, 2560, 1400),
    }
}

#[test]
fn auto_resolves_blurred_when_compositor_supports_blur() {
    let c = caps(true, true, false);
    assert_eq!(resolve_material(MaterialMode::Auto, &c), ResolvedMaterial::Blurred);
}

#[test]
fn auto_resolves_translucent_when_compositor_cannot_blur() {
    let c = caps(true, false, false);
    assert_eq!(resolve_material(MaterialMode::Auto, &c), ResolvedMaterial::Translucent);
}

#[test]
fn auto_resolves_opaque_without_compositor() {
    let c = caps(false, false, false);
    assert_eq!(resolve_material(MaterialMode::Auto, &c), ResolvedMaterial::Opaque);
}

#[test]
fn explicit_opaque_forces_opaque_even_with_best_capabilities() {
    let c = caps(true, true, false);
    assert_eq!(resolve_material(MaterialMode::Opaque, &c), ResolvedMaterial::Opaque);
}

#[test]
fn explicit_translucent_never_blurs_and_degrades_without_compositor() {
    let blurred_caps = caps(true, true, false);
    assert_eq!(
        resolve_material(MaterialMode::Translucent, &blurred_caps),
        ResolvedMaterial::Translucent
    );
    let plain_caps = caps(true, false, false);
    assert_eq!(
        resolve_material(MaterialMode::Translucent, &plain_caps),
        ResolvedMaterial::Translucent
    );
    let no_compositor = caps(false, false, false);
    assert_eq!(
        resolve_material(MaterialMode::Translucent, &no_compositor),
        ResolvedMaterial::Opaque
    );
}

#[test]
fn high_contrast_forces_opaque_regardless_of_request_and_capabilities() {
    for (compositor, blur) in [(true, true), (true, false), (false, false)] {
        for requested in [MaterialMode::Auto, MaterialMode::Translucent, MaterialMode::Opaque] {
            let c = caps(compositor, blur, true);
            assert_eq!(
                resolve_material(requested, &c),
                ResolvedMaterial::Opaque,
                "high contrast must force opaque for {requested:?} with compositor={compositor} blur={blur}"
            );
        }
    }
}

#[test]
fn opaque_is_the_is_opaque_flag_single_truth() {
    assert!(ResolvedMaterial::Opaque.is_opaque());
    assert!(!ResolvedMaterial::Opaque.is_translucent());
    assert!(ResolvedMaterial::Blurred.is_translucent());
    assert!(ResolvedMaterial::Translucent.is_translucent());
}

#[test]
fn reduced_motion_downgrades_only_full_motion() {
    let mut c = caps(true, true, false);
    assert_eq!(resolve_motion(MotionMode::Full, &c), MotionMode::Full);
    c.reduced_motion = true;
    assert_eq!(resolve_motion(MotionMode::Full, &c), MotionMode::Reduced);
    assert_eq!(resolve_motion(MotionMode::Reduced, &c), MotionMode::Reduced);
    assert_eq!(resolve_motion(MotionMode::Disabled, &c), MotionMode::Disabled);
}
