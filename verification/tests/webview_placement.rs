use volumectl::webview::{
    place_surface, window_options, OpenSurfaces, PhysicalRect, SurfaceId, SurfaceStep,
};

fn wa(x: i32, y: i32, width: u32, height: u32) -> PhysicalRect {
    PhysicalRect { x, y, width, height }
}

#[test]
fn mixer_places_bottom_right_above_overlay() {
    let rect = place_surface(SurfaceId::Mixer, wa(0, 0, 2560, 1400), 100);
    assert_eq!((rect.x, rect.y), (2140, 1032));
    assert_eq!((rect.width, rect.height), (400, 224));
}

#[test]
fn mixer_scales_with_dpi() {
    let rect = place_surface(SurfaceId::Mixer, wa(0, 0, 3840, 2100), 150);
    assert_eq!((rect.width, rect.height), (600, 336));
    assert_eq!((rect.x, rect.y), (3220, 1576));
}

#[test]
fn mixer_clamps_to_work_area_when_stack_is_taller_than_work_area() {
    let rect = place_surface(SurfaceId::Mixer, wa(0, 0, 800, 200), 100);
    assert_eq!(rect.y, 0);
    assert_eq!((rect.width, rect.height), (400, 224));
}

#[test]
fn settings_centers_in_work_area() {
    let rect = place_surface(SurfaceId::Settings, wa(0, 0, 2560, 1400), 100);
    assert_eq!((rect.width, rect.height), (760, 620));
    assert_eq!((rect.x, rect.y), (900, 390));
}

#[test]
fn settings_clamps_to_work_area_when_larger() {
    let rect = place_surface(SurfaceId::Settings, wa(0, 0, 800, 600), 100);
    assert_eq!((rect.width, rect.height), (760, 620));
    assert_eq!((rect.x, rect.y), (20, 0));
}

#[test]
fn help_places_bottom_right() {
    let rect = place_surface(SurfaceId::Help, wa(0, 0, 2560, 1400), 100);
    assert_eq!((rect.width, rect.height), (520, 500));
    assert_eq!((rect.x, rect.y), (2016, 852));
}

#[test]
fn placements_work_for_negative_origin_work_area() {
    let work = wa(-1920, 0, 1920, 1080);
    let mixer = place_surface(SurfaceId::Mixer, work, 100);
    assert_eq!((mixer.x, mixer.y), (-420, 712));
    let settings = place_surface(SurfaceId::Settings, work, 100);
    assert_eq!((settings.x, settings.y), (-1920 + 580, 230));
}

/// The integer placement agrees with rounding the exact scaled geometry.
#[test]
fn fractional_scales_round_halves_away_from_zero() {
    let work = wa(-1000, -500, 1999, 1333);
    for percent in [100u32, 125, 150, 175, 200, 133] {
        let scale = f64::from(percent) / 100.0;
        for surface in SurfaceId::all() {
            let (w, h) = match surface {
                SurfaceId::Mixer => (400.0, 224.0),
                SurfaceId::Settings => (760.0, 620.0),
                SurfaceId::Help => (520.0, 500.0),
            };
            let (wx, wy, ww, wh) = (-1000.0f64, -500.0f64, 1999.0f64, 1333.0f64);
            let (left, top) = match surface {
                SurfaceId::Mixer => {
                    let right = wx + ww - 20.0;
                    let bottom = wy + wh - 40.0 - 88.0 * scale - 16.0;
                    (right - w * scale, (bottom - h * scale).max(wy))
                }
                SurfaceId::Settings => (
                    wx + ((ww - w * scale) / 2.0).max(0.0),
                    wy + ((wh - h * scale) / 2.0).max(0.0),
                ),
                SurfaceId::Help => (wx + ww - 24.0 - w * scale, wy + wh - 48.0 - h * scale),
            };
            let r = place_surface(surface, work, percent);
            assert_eq!(r.x, left.round() as i32, "{surface:?} at {percent}%");
            assert_eq!(r.y, top.round() as i32, "{surface:?} at {percent}%");
            assert_eq!(r.width, (w * scale).round() as u32, "{surface:?} at {percent}%");
            assert_eq!(r.height, (h * scale).round() as u32, "{surface:?} at {percent}%");
        }
    }
}


#[test]
fn window_options_follow_the_surface_roles() {
    let mixer = window_options(SurfaceId::Mixer);
    assert_eq!((mixer.width, mixer.height), (400, 224));
    assert!(!mixer.decorations && mixer.transparent && mixer.always_on_top && mixer.skip_taskbar);
    assert!(!mixer.resizable);
    let settings = window_options(SurfaceId::Settings);
    assert_eq!((settings.width, settings.height), (760, 620));
    assert!(settings.resizable);
    assert_eq!(settings.min_size, Some((620, 520)));
    let help = window_options(SurfaceId::Help);
    assert_eq!((help.width, help.height), (520, 500));
    assert!(!help.resizable && help.decorations);
    assert_eq!(help.min_size, None);
}

#[test]
fn surfaces_are_created_once_and_toggled_closed() {
    let mut open = OpenSurfaces::new();
    for s in SurfaceId::all() {
        assert!(!open.is_open(s));
        assert_eq!(open.open_step(s), SurfaceStep::Create);
    }
    open.set_open(SurfaceId::Mixer, true);
    assert_eq!(open.open_step(SurfaceId::Mixer), SurfaceStep::Reveal);
    assert_eq!(open.toggle_step(SurfaceId::Mixer), SurfaceStep::Destroy);
    assert_eq!(open.toggle_step(SurfaceId::Help), SurfaceStep::Create);
    let before = open;
    open.set_open(SurfaceId::Help, true);
    open.set_open(SurfaceId::Help, false);
    assert_eq!(open, before);
    open.set_open(SurfaceId::Mixer, false);
    assert_eq!(open, OpenSurfaces::new());
}
