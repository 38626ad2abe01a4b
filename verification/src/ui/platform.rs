//! Platform seams that are pure decisions: how the shared material ladder
//! maps onto AppKit and GTK treatments, the accessibility names, the
//! logical window sizes, and the Win32 color encoding.

use vstd::prelude::*;
use crate::ui::capabilities::{
    material_for, motion_for, resolve_material, resolve_motion, ResolvedMaterial, UiCapabilities,
};
use crate::ui::model::{AppState, MotionMode, SurfaceId};
use crate::ui::surface::{
    centered_fits, centered_offset, mixer_fits, overlay_fits, overlay_rect, place_centered,
    place_mixer_above_overlay, place_overlay, SurfaceRect, SurfaceSize, WorkArea,
};
use crate::ui::theme::Rgba;
use crate::webview::{round_div, round_div_i128, saturate_i32, saturating_i32};

verus! {

/// Bottom-right placement margins and the mixer/overlay gap, in px.
pub const MARGIN_X: i32 = 20;
pub const MARGIN_Y: i32 = 40;
pub const SURFACE_GAP: i32 = 16;

/// What the AppKit layer applies for a surface.
#[derive(Debug, Clone, Copy, PartialEq, Eq, Structural)]
pub enum AppKitMaterialKind {
    /// `NSVisualEffectView` with a system glass material.
    NativeGlass,
    /// Translucent window without an effect view.
    Translucent,
    /// Fully opaque window with the token background.
    Opaque,
}

impl AppKitMaterialKind {
    pub fn is_glass(self) -> (r: bool)
        ensures
            r == (self == AppKitMaterialKind::NativeGlass),
    {
        matches!(self, AppKitMaterialKind::NativeGlass)
    }

    pub fn is_opaque(self) -> (r: bool)
        ensures
            r == (self == AppKitMaterialKind::Opaque),
    {
        matches!(self, AppKitMaterialKind::Opaque)
    }
}

/// `Blurred` becomes the native glass; translucent and opaque pass
/// through one to one.
pub fn appkit_material_for(resolved: ResolvedMaterial) -> (r: AppKitMaterialKind)
    ensures
        r == match resolved {
            ResolvedMaterial::Blurred => AppKitMaterialKind::NativeGlass,
            ResolvedMaterial::Translucent => AppKitMaterialKind::Translucent,
            ResolvedMaterial::Opaque => AppKitMaterialKind::Opaque,
        },
{
    match resolved {
        ResolvedMaterial::Blurred => AppKitMaterialKind::NativeGlass,
        ResolvedMaterial::Translucent => AppKitMaterialKind::Translucent,
        ResolvedMaterial::Opaque => AppKitMaterialKind::Opaque,
    }
}

/// What the GTK layer applies for a surface.
#[derive(Debug, Clone, Copy, PartialEq, Eq, Structural)]
pub enum GtkMaterialKind {
    /// Layer-shell surface on Wayland (compositor glass).
    WaylandGlass,
    /// Plain window with the token surface alpha.
    Translucent,
    /// Plain window with the solid token background.
    Opaque,
}

impl GtkMaterialKind {
    pub fn is_glass(self) -> (r: bool)
        ensures
            r == (self == GtkMaterialKind::WaylandGlass),
    {
        matches!(self, GtkMaterialKind::WaylandGlass)
    }

    pub fn is_opaque(self) -> (r: bool)
        ensures
            r == (self == GtkMaterialKind::Opaque),
    {
        matches!(self, GtkMaterialKind::Opaque)
    }
}

/// `Blurred` becomes Wayland glass only with layer-shell, otherwise a
/// translucent window; translucent and opaque pass through.
pub fn gtk_material_for(resolved: ResolvedMaterial, layer_shell_ok: bool) -> (r: GtkMaterialKind)
    ensures
        r == match resolved {
            ResolvedMaterial::Blurred => if layer_shell_ok {
                GtkMaterialKind::WaylandGlass
            } else {
                GtkMaterialKind::Translucent
            },
            ResolvedMaterial::Translucent => GtkMaterialKind::Translucent,
            ResolvedMaterial::Opaque => GtkMaterialKind::Opaque,
        },
{
    match resolved {
        ResolvedMaterial::Blurred => if layer_shell_ok {
            GtkMaterialKind::WaylandGlass
        } else {
            GtkMaterialKind::Translucent
        },
        ResolvedMaterial::Translucent => GtkMaterialKind::Translucent,
        ResolvedMaterial::Opaque => GtkMaterialKind::Opaque,
    }
}

/// The accessibility name of each surface window.
pub fn a11y_label(surface: SurfaceId) -> (r: &'static str)
    ensures
        r@ == match surface {
            SurfaceId::Overlay => "System output volume"@,
            SurfaceId::Mixer => "Volume mixer"@,
            SurfaceId::Settings => "VolumeControl Settings"@,
            SurfaceId::Help => "VolumeControl Help"@,
            SurfaceId::Tray => "VolumeControl"@,
        },
{
    match surface {
        SurfaceId::Overlay => "System output volume",
        SurfaceId::Mixer => "Volume mixer",
        SurfaceId::Settings => "VolumeControl Settings",
        SurfaceId::Help => "VolumeControl Help",
        SurfaceId::Tray => "VolumeControl",
    }
}

/// Logical size of each surface window; the tray owns no window and
/// reuses the overlay size.
pub open spec fn logical_size_of(surface: SurfaceId) -> SurfaceSize {
    match surface {
        SurfaceId::Overlay | SurfaceId::Tray => SurfaceSize { width: 336, height: 88 },
        SurfaceId::Mixer => SurfaceSize { width: 400, height: 224 },
        SurfaceId::Settings => SurfaceSize { width: 580, height: 636 },
        SurfaceId::Help => SurfaceSize { width: 520, height: 500 },
    }
}

pub fn logical_size(surface: SurfaceId) -> (r: SurfaceSize)
    ensures
        r == logical_size_of(surface),
{
    match surface {
        SurfaceId::Overlay | SurfaceId::Tray => SurfaceSize::new(336, 88),
        SurfaceId::Mixer => SurfaceSize::new(400, 224),
        SurfaceId::Settings => SurfaceSize::new(580, 636),
        SurfaceId::Help => SurfaceSize::new(520, 500),
    }
}

/// Win32 `COLORREF` of a color: `0x00BBGGRR`, alpha ignored.
pub fn colorref(rgba: Rgba) -> (r: u32)
    ensures
        r == rgba.red + 256 * rgba.green + 65536 * rgba.blue,
{
    let red = rgba.red as u32;
    let green = rgba.green as u32;
    let blue = rgba.blue as u32;
    let r = red | (green << 8) | (blue << 16);
    assert(r == red + 256 * green + 65536 * blue) by (bit_vector)
        requires
            red < 256,
            green < 256,
            blue < 256,
            r == red | (green << 8) | (blue << 16),
    ;
    r
}

/// The accessibility name of each surface window, as characters.
pub open spec fn a11y_text(surface: SurfaceId) -> Seq<char> {
    match surface {
        SurfaceId::Overlay => "System output volume"@,
        SurfaceId::Mixer => "Volume mixer"@,
        SurfaceId::Settings => "VolumeControl Settings"@,
        SurfaceId::Help => "VolumeControl Help"@,
        SurfaceId::Tray => "VolumeControl"@,
    }
}

/// A logical length scaled to physical pixels at `dpi_percent`, rounded to
/// the nearest pixel with halves rounded up.
pub open spec fn scaled(len: int, dpi_percent: int) -> int {
    (len * dpi_percent + 50) / 100
}

/// A logical size scaled to physical pixels.
pub open spec fn scaled_size(size: SurfaceSize, dpi_percent: int) -> SurfaceSize {
    SurfaceSize {
        width: scaled(size.width as int, dpi_percent) as i32,
        height: scaled(size.height as int, dpi_percent) as i32,
    }
}

/// Scale a non-negative logical size to physical pixels.
pub fn physical(size: SurfaceSize, dpi_percent: u32) -> (r: SurfaceSize)
    requires
        0 <= size.width,
        0 <= size.height,
        scaled(size.width as int, dpi_percent as int) <= i32::MAX,
        scaled(size.height as int, dpi_percent as int) <= i32::MAX,
    ensures
        r == scaled_size(size, dpi_percent as int),
{
    let w = size.width as u64;
    let h = size.height as u64;
    let p = dpi_percent as u64;
    assert(w * p <= 0x7fff_ffff * 0xffff_ffff) by (nonlinear_arith)
        requires
            w <= 0x7fff_ffff,
            p <= 0xffff_ffff,
    ;
    assert(h * p <= 0x7fff_ffff * 0xffff_ffff) by (nonlinear_arith)
        requires
            h <= 0x7fff_ffff,
            p <= 0xffff_ffff,
    ;
    let sw = (w * p + 50) / 100;
    let sh = (h * p + 50) / 100;
    SurfaceSize::new(sw as i32, sh as i32)
}

/// One planned surface: where it goes, how it looks, how it is announced.
#[derive(Debug, Clone, Copy, PartialEq, Eq)]
pub struct SurfacePlan {
    pub surface: SurfaceId,
    pub rect: SurfaceRect,
    /// Resolved material treatment (shared ladder).
    pub material: ResolvedMaterial,
    /// The AppKit treatment of the resolved material.
    pub appkit_material: AppKitMaterialKind,
    /// The GTK treatment of the resolved material.
    pub gtk_material: GtkMaterialKind,
    /// Motion policy after the system reduced-motion preference.
    pub motion: MotionMode,
    /// Accessibility label of the window.
    pub label: &'static str,
    /// Surface fill.
    pub background: Rgba,
}

pub open spec fn appkit_kind(m: ResolvedMaterial) -> AppKitMaterialKind {
    match m {
        ResolvedMaterial::Blurred => AppKitMaterialKind::NativeGlass,
        ResolvedMaterial::Translucent => AppKitMaterialKind::Translucent,
        ResolvedMaterial::Opaque => AppKitMaterialKind::Opaque,
    }
}

pub open spec fn gtk_kind(m: ResolvedMaterial, layer_shell_ok: bool) -> GtkMaterialKind {
    match m {
        ResolvedMaterial::Blurred => if layer_shell_ok {
            GtkMaterialKind::WaylandGlass
        } else {
            GtkMaterialKind::Translucent
        },
        ResolvedMaterial::Translucent => GtkMaterialKind::Translucent,
        ResolvedMaterial::Opaque => GtkMaterialKind::Opaque,
    }
}

/// Every scaled size and every placement of the plan fits in `i32`.
pub open spec fn plan_fits(work: WorkArea, dpi_percent: int) -> bool {
    let overlay = scaled_size(logical_size_of(SurfaceId::Overlay), dpi_percent);
    let mixer = scaled_size(logical_size_of(SurfaceId::Mixer), dpi_percent);
    let settings = scaled_size(logical_size_of(SurfaceId::Settings), dpi_percent);
    let help = scaled_size(logical_size_of(SurfaceId::Help), dpi_percent);
    &&& scaled(636, dpi_percent) <= i32::MAX
    &&& mixer_fits(work, mixer, overlay, MARGIN_X as int, MARGIN_Y as int, SURFACE_GAP as int)
    &&& centered_fits(work, settings)
    &&& centered_fits(work, help)
}

fn one_plan(
    surface: SurfaceId,
    rect: SurfaceRect,
    material: ResolvedMaterial,
    motion: MotionMode,
    background: Rgba,
    layer_shell_ok: bool,
) -> (r: SurfacePlan)
    ensures
        r.surface == surface,
        r.rect == rect,
        r.material == material,
        r.appkit_material == appkit_kind(material),
        r.gtk_material == gtk_kind(material, layer_shell_ok),
        r.motion == motion,
        r.label@ == a11y_text(surface),
        r.background == background,
{
    SurfacePlan {
        surface,
        rect,
        material,
        appkit_material: appkit_material_for(material),
        gtk_material: gtk_material_for(material, layer_shell_ok),
        motion,
        label: a11y_label(surface),
        background,
    }
}

/// Plan the overlay, mixer, settings and help windows from the confirmed
/// state: the overlay bottom-right inside the margins, the mixer directly
/// above it with the gap, settings and help centered, all at the physical
/// sizes for the capability DPI; one resolved material (and its AppKit and
/// GTK treatments) and one resolved motion policy for every surface.
pub fn plan_surfaces(
    state: &AppState,
    background: Rgba,
    caps: &UiCapabilities,
    layer_shell_ok: bool,
) -> (r: Vec<SurfacePlan>)
    requires
        plan_fits(caps.work_area, caps.dpi_percent as int),
    ensures
        r@.len() == 4,
        forall|i: int|
            0 <= i < 4 ==> {
                let p = #[trigger] r@[i];
                &&& p.material == material_for(state.material, *caps)
                &&& p.appkit_material == appkit_kind(p.material)
                &&& p.gtk_material == gtk_kind(p.material, layer_shell_ok)
                &&& p.motion == motion_for(state.motion, *caps)
                &&& p.label@ == a11y_text(p.surface)
                &&& p.background == background
            },
        r@[0].surface == SurfaceId::Overlay,
        r@[1].surface == SurfaceId::Mixer,
        r@[2].surface == SurfaceId::Settings,
        r@[3].surface == SurfaceId::Help,
        ({
            let dpi = caps.dpi_percent as int;
            let work = caps.work_area;
            let overlay = overlay_rect(
                work,
                scaled_size(logical_size_of(SurfaceId::Overlay), dpi),
                MARGIN_X as int,
                MARGIN_Y as int,
            );
            let mixer = scaled_size(logical_size_of(SurfaceId::Mixer), dpi);
            let settings = scaled_size(logical_size_of(SurfaceId::Settings), dpi);
            let help = scaled_size(logical_size_of(SurfaceId::Help), dpi);
            &&& r@[0].rect == overlay
            &&& r@[1].rect.right == overlay.right
            &&& r@[1].rect.bottom + SURFACE_GAP == overlay.top
            &&& r@[1].rect.right - r@[1].rect.left == mixer.width
            &&& r@[1].rect.bottom - r@[1].rect.top == mixer.height
            &&& r@[2].rect.left == work.x + centered_offset(work.width as int, settings.width as int)
            &&& r@[2].rect.top == work.y + centered_offset(work.height as int, settings.height as int)
            &&& r@[2].rect.right - r@[2].rect.left == settings.width
            &&& r@[2].rect.bottom - r@[2].rect.top == settings.height
            &&& r@[3].rect.left == work.x + centered_offset(work.width as int, help.width as int)
            &&& r@[3].rect.top == work.y + centered_offset(work.height as int, help.height as int)
            &&& r@[3].rect.right - r@[3].rect.left == help.width
            &&& r@[3].rect.bottom - r@[3].rect.top == help.height
        }),
{
    let dpi = caps.dpi_percent;
    let work = caps.work_area;
    let material = resolve_material(state.material, caps);
    let motion = resolve_motion(state.motion, caps);
    proof {
        assert(scaled(336, dpi as int) <= scaled(636, dpi as int)) by (nonlinear_arith)
            requires dpi >= 0;
        assert(scaled(88, dpi as int) <= scaled(636, dpi as int)) by (nonlinear_arith)
            requires dpi >= 0;
        assert(scaled(400, dpi as int) <= scaled(636, dpi as int)) by (nonlinear_arith)
            requires dpi >= 0;
        assert(scaled(224, dpi as int) <= scaled(636, dpi as int)) by (nonlinear_arith)
            requires dpi >= 0;
        assert(scaled(580, dpi as int) <= scaled(636, dpi as int)) by (nonlinear_arith)
            requires dpi >= 0;
        assert(scaled(520, dpi as int) <= scaled(636, dpi as int)) by (nonlinear_arith)
            requires dpi >= 0;
        assert(scaled(500, dpi as int) <= scaled(636, dpi as int)) by (nonlinear_arith)
            requires dpi >= 0;
    }
    let overlay_size = physical(logical_size(SurfaceId::Overlay), dpi);
    let mixer_size = physical(logical_size(SurfaceId::Mixer), dpi);
    let settings_size = physical(logical_size(SurfaceId::Settings), dpi);
    let help_size = physical(logical_size(SurfaceId::Help), dpi);
    let overlay_rect = place_overlay(work, overlay_size, MARGIN_X, MARGIN_Y);
    let mixer_rect = place_mixer_above_overlay(
        work,
        mixer_size,
        overlay_size,
        MARGIN_X,
        MARGIN_Y,
        SURFACE_GAP,
    );
    let settings_rect = place_centered(work, settings_size);
    let help_rect = place_centered(work, help_size);
    let mut plans: Vec<SurfacePlan> = Vec::new();
    plans.push(one_plan(SurfaceId::Overlay, overlay_rect, material, motion, background, layer_shell_ok));
    plans.push(one_plan(SurfaceId::Mixer, mixer_rect, material, motion, background, layer_shell_ok));
    plans.push(one_plan(SurfaceId::Settings, settings_rect, material, motion, background, layer_shell_ok));
    plans.push(one_plan(SurfaceId::Help, help_rect, material, motion, background, layer_shell_ok));
    plans
}

/// High contrast makes every planned surface opaque on every platform.
pub proof fn lemma_high_contrast_plans_opaque(state: AppState, caps: UiCapabilities, layer_shell_ok: bool)
    requires
        caps.high_contrast,
    ensures
        material_for(state.material, caps) == ResolvedMaterial::Opaque,
        appkit_kind(material_for(state.material, caps)) == AppKitMaterialKind::Opaque,
        gtk_kind(material_for(state.material, caps), layer_shell_ok) == GtkMaterialKind::Opaque,
{
}

/// Without layer-shell no GTK surface uses Wayland glass.
pub proof fn lemma_no_glass_without_layer_shell(m: ResolvedMaterial)
    ensures
        gtk_kind(m, false) != GtkMaterialKind::WaylandGlass,
{
}

/// Font family candidates for a text role, most preferred first: the
/// Windows 11 and Windows 10 UI faces then the system default (the empty
/// name, which always resolves), or the monospace chain for keycaps.
pub fn font_candidates(monospace: bool) -> (r: [&'static str; 3])
    ensures
        monospace ==> r@[0]@ == "Cascadia Mono"@ && r@[1]@ == "Consolas"@ && r@[2]@ == "Courier New"@,
        !monospace ==> r@[0]@ == "Segoe UI Variable"@ && r@[1]@ == "Segoe UI"@ && r@[2]@ == ""@,
{
    if monospace {
        ["Cascadia Mono", "Consolas", "Courier New"]
    } else {
        ["Segoe UI Variable", "Segoe UI", ""]
    }
}

/// A logical pixel count in physical pixels at `dpi_percent` (a whole
/// percentage; a fractional scale such as 4/3 is given rounded, as 133): rounded to
/// the nearest pixel with halves away from zero, saturated into `i32`.
pub fn scale_px(dpi_percent: u32, px: i32) -> (r: i32)
    ensures
        r == saturate_i32(round_div(px * dpi_percent, 100)),
{
    let a = px as i128;
    let b = dpi_percent as i128;
    assert(-0x1_0000_0000_0000_0000 <= a * b <= 0x1_0000_0000_0000_0000) by (nonlinear_arith)
        requires
            -0x8000_0000 <= a < 0x8000_0000,
            0 <= b < 0x1_0000_0000,
    ;
    let n = a * b;
    saturating_i32(round_div_i128(n, 100))
}

} // verus!
