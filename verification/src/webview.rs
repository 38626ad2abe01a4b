//! The webview surfaces of the desktop host: their window labels, titles
//! and entry pages, and the parsing of a requested surface label.

use vstd::prelude::*;
use crate::text::str_equals;

verus! {

broadcast use vstd::string::group_string_axioms;

/// A lazily created webview surface.
#[derive(Debug, Clone, Copy, PartialEq, Eq, Hash, Structural)]
pub enum SurfaceId {
    Mixer,
    Settings,
    Help,
}

/// The window label of a surface.
pub open spec fn label_of(s: SurfaceId) -> Seq<char> {
    match s {
        SurfaceId::Mixer => "window-mixer"@,
        SurfaceId::Settings => "window-settings"@,
        SurfaceId::Help => "window-help"@,
    }
}

/// The surface whose label is `label`, if any.
pub open spec fn surface_with_label(label: Seq<char>) -> Option<SurfaceId> {
    if label == "window-mixer"@ {
        Some(SurfaceId::Mixer)
    } else if label == "window-settings"@ {
        Some(SurfaceId::Settings)
    } else if label == "window-help"@ {
        Some(SurfaceId::Help)
    } else {
        None
    }
}

impl SurfaceId {
    pub fn label(&self) -> (r: &'static str)
        ensures
            r@ == label_of(*self),
    {
        match self {
            SurfaceId::Mixer => "window-mixer",
            SurfaceId::Settings => "window-settings",
            SurfaceId::Help => "window-help",
        }
    }

    pub fn title(&self) -> (r: &'static str)
        ensures
            r@ == match *self {
                SurfaceId::Mixer => "Volume Mixer"@,
                SurfaceId::Settings => "VolumeControl Settings"@,
                SurfaceId::Help => "VolumeControl Help"@,
            },
    {
        match self {
            SurfaceId::Mixer => "Volume Mixer",
            SurfaceId::Settings => "VolumeControl Settings",
            SurfaceId::Help => "VolumeControl Help",
        }
    }

    /// The built entry page of the surface.
    pub fn entry(&self) -> (r: &'static str)
        ensures
            r@ == match *self {
                SurfaceId::Mixer => "src/mixer/index.html"@,
                SurfaceId::Settings => "src/settings/index.html"@,
                SurfaceId::Help => "src/help/index.html"@,
            },
    {
        match self {
            SurfaceId::Mixer => "src/mixer/index.html",
            SurfaceId::Settings => "src/settings/index.html",
            SurfaceId::Help => "src/help/index.html",
        }
    }

    /// Every surface.
    pub fn all() -> (r: [SurfaceId; 3])
        ensures
            r@ == seq![SurfaceId::Mixer, SurfaceId::Settings, SurfaceId::Help],
    {
        let r = [SurfaceId::Mixer, SurfaceId::Settings, SurfaceId::Help];
        assert(r@ =~= seq![SurfaceId::Mixer, SurfaceId::Settings, SurfaceId::Help]);
        r
    }

    /// The surface with window label `label`.
    pub fn from_label(label: &str) -> (r: Option<Self>)
        ensures
            r == surface_with_label(label@),
    {
        if str_equals(label, "window-mixer") {
            Some(SurfaceId::Mixer)
        } else if str_equals(label, "window-settings") {
            Some(SurfaceId::Settings)
        } else if str_equals(label, "window-help") {
            Some(SurfaceId::Help)
        } else {
            None
        }
    }
}

/// Looking a surface up by its own label finds that surface.
pub proof fn lemma_label_round_trip(s: SurfaceId)
    ensures
        surface_with_label(label_of(s)) == Some(s),
{
    reveal_strlit("window-mixer");
    reveal_strlit("window-settings");
    reveal_strlit("window-help");
    if s != SurfaceId::Mixer {
        assert(label_of(s) != "window-mixer"@) by {
            assert(label_of(s)[7] != "window-mixer"@[7]);
        }
    }
    if s == SurfaceId::Help {
        assert(label_of(s) != "window-settings"@) by {
            assert(label_of(s).len() != "window-settings"@.len());
        }
    }
}

/// Parse the surface requested for verification: empty means none, a
/// surface label means that surface, anything else is refused.
pub fn parse_verify_surface(value: &str) -> (r: Result<Option<SurfaceId>, String>)
    ensures
        value@.len() == 0 ==> r == Ok::<Option<SurfaceId>, String>(None),
        value@.len() != 0 ==> match r {
            Ok(s) => s is Some && s == surface_with_label(value@),
            Err(e) => surface_with_label(value@) is None && e@ == "unknown surface"@,
        },
{
    if value.unicode_len() == 0 {
        Ok(None)
    } else {
        match SurfaceId::from_label(value) {
            Some(s) => Ok(Some(s)),
            None => Err("unknown surface".to_string()),
        }
    }
}

/// A rectangle in physical pixels: its top-left corner and its size.
#[derive(Debug, Clone, Copy, PartialEq, Eq, Structural)]
pub struct PhysicalRect {
    pub x: i32,
    pub y: i32,
    pub width: u32,
    pub height: u32,
}

/// `n / d` rounded to the nearest integer, halves away from zero.
pub open spec fn round_div(n: int, d: int) -> int {
    if n >= 0 {
        (2 * n + d) / (2 * d)
    } else {
        -((-2 * n + d) / (2 * d))
    }
}

/// `v` saturated into `i32`.
pub open spec fn saturate_i32(v: int) -> i32 {
    if v < i32::MIN {
        i32::MIN
    } else if v > i32::MAX {
        i32::MAX
    } else {
        v as i32
    }
}

/// `v` saturated into `u32`.
pub open spec fn saturate_u32(v: int) -> u32 {
    if v < 0 {
        0
    } else if v > u32::MAX {
        u32::MAX
    } else {
        v as u32
    }
}

/// Where a surface goes in a work area at `scale_percent` DPI, before
/// rounding, as numerators over a common denominator: `(left numerator,
/// top numerator, denominator, width·100, height·100)`.
///
/// - Mixer (400×224): right edge 20 px inside the work area, bottom 16 px
///   above the 88-px overlay that sits 40 px above the work-area bottom;
///   never above the work-area top.
/// - Settings (760×620): centered, never left of or above the work area.
/// - Help (520×500): bottom-right, 24 px and 48 px inside.
///
/// Sizes scale with the DPI; margins and the gap stay physical pixels.
pub open spec fn placement(surface: SurfaceId, wa: PhysicalRect, p: int) -> (int, int, int, int, int) {
    let (x, y, w, h) = (wa.x as int, wa.y as int, wa.width as int, wa.height as int);
    match surface {
        SurfaceId::Mixer => {
            let top = 100 * (y + h - 40 - 16) - 88 * p - 224 * p;
            (100 * (x + w - 20) - 400 * p, if top < 100 * y { 100 * y } else { top }, 100, 400 * p, 224 * p)
        },
        SurfaceId::Settings => {
            let free_x = 100 * w - 760 * p;
            let free_y = 100 * h - 620 * p;
            (
                200 * x + (if free_x < 0 { 0 } else { free_x }),
                200 * y + (if free_y < 0 { 0 } else { free_y }),
                200,
                760 * p,
                620 * p,
            )
        },
        SurfaceId::Help => (100 * (x + w - 24) - 520 * p, 100 * (y + h - 48) - 500 * p, 100, 520 * p, 500 * p),
    }
}

/// The physical rectangle of a surface: each coordinate and each size
/// rounded to the nearest pixel (halves away from zero) and saturated into
/// its integer type.
pub open spec fn placed(surface: SurfaceId, wa: PhysicalRect, p: int) -> PhysicalRect {
    let (l, t, d, w, h) = placement(surface, wa, p);
    PhysicalRect {
        x: saturate_i32(round_div(l, d)),
        y: saturate_i32(round_div(t, d)),
        width: saturate_u32(round_div(w, 100)),
        height: saturate_u32(round_div(h, 100)),
    }
}

pub(crate) fn round_div_i128(n: i128, d: i128) -> (r: i128)
    requires
        0 < d <= 200,
        -0x1_0000_0000_0000_0000 <= n <= 0x1_0000_0000_0000_0000,
    ensures
        r == round_div(n as int, d as int),
{
    if n >= 0 {
        (2 * n + d) / (2 * d)
    } else {
        let m: i128 = 0 - n;
        let q: i128 = (2 * m + d) / (2 * d);
        0 - q
    }
}

pub(crate) fn saturating_i32(v: i128) -> (r: i32)
    ensures
        r == saturate_i32(v as int),
{
    if v < i32::MIN as i128 {
        i32::MIN
    } else if v > i32::MAX as i128 {
        i32::MAX
    } else {
        v as i32
    }
}

fn saturating_u32(v: i128) -> (r: u32)
    ensures
        r == saturate_u32(v as int),
{
    if v < 0 {
        0
    } else if v > u32::MAX as i128 {
        u32::MAX
    } else {
        v as u32
    }
}

/// The physical target rectangle of a surface inside a monitor work area
/// at `scale_percent` DPI (see [`placement`]). The scale is a whole
/// percentage: a fractional scale such as 4/3 is given rounded (133), which
/// can differ by a pixel from the exact scale.
pub fn place_surface(surface: SurfaceId, work_area: PhysicalRect, scale_percent: u32) -> (r: PhysicalRect)
    ensures
        r == placed(surface, work_area, scale_percent as int),
{
    let x = work_area.x as i128;
    let y = work_area.y as i128;
    let w = work_area.width as i128;
    let h = work_area.height as i128;
    let p = scale_percent as i128;
    let (l, t, d, sw, sh): (i128, i128, i128, i128, i128) = match surface {
        SurfaceId::Mixer => {
            let top = 100 * (y + h - 40 - 16) - 88 * p - 224 * p;
            (100 * (x + w - 20) - 400 * p, if top < 100 * y { 100 * y } else { top }, 100, 400 * p, 224 * p)
        },
        SurfaceId::Settings => {
            let free_x = 100 * w - 760 * p;
            let free_y = 100 * h - 620 * p;
            (
                200 * x + (if free_x < 0 { 0 } else { free_x }),
                200 * y + (if free_y < 0 { 0 } else { free_y }),
                200,
                760 * p,
                620 * p,
            )
        },
        SurfaceId::Help => (100 * (x + w - 24) - 520 * p, 100 * (y + h - 48) - 500 * p, 100, 520 * p, 500 * p),
    };
    PhysicalRect {
        x: saturating_i32(round_div_i128(l, d)),
        y: saturating_i32(round_div_i128(t, d)),
        width: saturating_u32(round_div_i128(sw, 100)),
        height: saturating_u32(round_div_i128(sh, 100)),
    }
}

/// How a surface window is built: its logical inner size and chrome.
#[derive(Debug, Clone, Copy, PartialEq, Eq)]
pub struct WindowOptions {
    pub width: u32,
    pub height: u32,
    /// Native title bar and frame.
    pub decorations: bool,
    /// Transparent background, where the platform's builder offers it.
    pub transparent: bool,
    pub always_on_top: bool,
    pub skip_taskbar: bool,
    pub resizable: bool,
    /// Smallest inner size a resizable window may take.
    pub min_size: Option<(u32, u32)>,
}

/// The mixer is a frameless, transparent, always-on-top 400×224 panel kept
/// off the taskbar; settings is a resizable 760×620 window no smaller than
/// 620×520; help is a fixed 520×500 window.
pub open spec fn options_of(surface: SurfaceId) -> WindowOptions {
    match surface {
        SurfaceId::Mixer => WindowOptions {
            width: 400,
            height: 224,
            decorations: false,
            transparent: true,
            always_on_top: true,
            skip_taskbar: true,
            resizable: false,
            min_size: None,
        },
        SurfaceId::Settings => WindowOptions {
            width: 760,
            height: 620,
            decorations: true,
            transparent: false,
            always_on_top: false,
            skip_taskbar: false,
            resizable: true,
            min_size: Some((620, 520)),
        },
        SurfaceId::Help => WindowOptions {
            width: 520,
            height: 500,
            decorations: true,
            transparent: false,
            always_on_top: false,
            skip_taskbar: false,
            resizable: false,
            min_size: None,
        },
    }
}

/// The build options of a surface window.
pub fn window_options(surface: SurfaceId) -> (r: WindowOptions)
    ensures
        r == options_of(surface),
{
    match surface {
        SurfaceId::Mixer => WindowOptions {
            width: 400,
            height: 224,
            decorations: false,
            transparent: true,
            always_on_top: true,
            skip_taskbar: true,
            resizable: false,
            min_size: None,
        },
        SurfaceId::Settings => WindowOptions {
            width: 760,
            height: 620,
            decorations: true,
            transparent: false,
            always_on_top: false,
            skip_taskbar: false,
            resizable: true,
            min_size: Some((620, 520)),
        },
        SurfaceId::Help => WindowOptions {
            width: 520,
            height: 500,
            decorations: true,
            transparent: false,
            always_on_top: false,
            skip_taskbar: false,
            resizable: false,
            min_size: None,
        },
    }
}

/// Which surface windows currently exist. Windows are created on demand and
/// destroyed on close, so the app starts with none.
#[derive(Debug, Clone, Copy, PartialEq, Eq, Structural)]
pub struct OpenSurfaces {
    mixer: bool,
    settings: bool,
    help: bool,
}

/// What the window manager does next for a request.
#[derive(Debug, Clone, Copy, PartialEq, Eq, Structural)]
pub enum SurfaceStep {
    /// Build the window with [`window_options`], place it, and record it.
    Create,
    /// The window exists: place it again, show it and focus it.
    Reveal,
    /// Destroy the window and forget it.
    Destroy,
}

impl OpenSurfaces {
    /// Whether `surface` has a window.
    pub closed spec fn has(self, surface: SurfaceId) -> bool {
        match surface {
            SurfaceId::Mixer => self.mixer,
            SurfaceId::Settings => self.settings,
            SurfaceId::Help => self.help,
        }
    }

    /// No window exists.
    pub fn new() -> (r: Self)
        ensures
            forall|s: SurfaceId| !r.has(s),
    {
        OpenSurfaces { mixer: false, settings: false, help: false }
    }

    pub fn is_open(&self, surface: SurfaceId) -> (r: bool)
        ensures
            r == self.has(surface),
    {
        match surface {
            SurfaceId::Mixer => self.mixer,
            SurfaceId::Settings => self.settings,
            SurfaceId::Help => self.help,
        }
    }

    /// Record whether `surface` has a window; the others are unchanged.
    pub fn set_open(&mut self, surface: SurfaceId, open: bool)
        ensures
            final(self).has(surface) == open,
            forall|s: SurfaceId| s != surface ==> final(self).has(s) == old(self).has(s),
    {
        match surface {
            SurfaceId::Mixer => self.mixer = open,
            SurfaceId::Settings => self.settings = open,
            SurfaceId::Help => self.help = open,
        }
    }

    /// Opening reveals an existing window and creates a missing one.
    pub fn open_step(&self, surface: SurfaceId) -> (r: SurfaceStep)
        ensures
            r == (if self.has(surface) { SurfaceStep::Reveal } else { SurfaceStep::Create }),
    {
        if self.is_open(surface) {
            SurfaceStep::Reveal
        } else {
            SurfaceStep::Create
        }
    }

    /// Toggling destroys an existing window and creates a missing one.
    pub fn toggle_step(&self, surface: SurfaceId) -> (r: SurfaceStep)
        ensures
            r == (if self.has(surface) { SurfaceStep::Destroy } else { SurfaceStep::Create }),
    {
        if self.is_open(surface) {
            SurfaceStep::Destroy
        } else {
            SurfaceStep::Create
        }
    }
}

/// Toggling a surface twice, recording each step, brings back the state
/// it started in.
pub proof fn lemma_toggle_twice_restores(start: OpenSurfaces, once: OpenSurfaces, twice: OpenSurfaces, surface: SurfaceId)
    requires
        once.has(surface) == !start.has(surface),
        forall|s: SurfaceId| s != surface ==> once.has(s) == start.has(s),
        twice.has(surface) == !once.has(surface),
        forall|s: SurfaceId| s != surface ==> twice.has(s) == once.has(s),
    ensures
        twice == start,
{
    assert(twice.has(SurfaceId::Mixer) == start.has(SurfaceId::Mixer));
    assert(twice.has(SurfaceId::Settings) == start.has(SurfaceId::Settings));
    assert(twice.has(SurfaceId::Help) == start.has(SurfaceId::Help));
}

/// Rounding never goes below a whole-pixel lower bound: if `n / d` is at
/// least `x`, so is its rounding.
proof fn lemma_round_div_at_least(x: int, n: int, d: int)
    requires
        d > 0,
        n >= d * x,
    ensures
        round_div(n, d) >= x,
{
    if n >= 0 {
        assert((2 * n + d) / (2 * d) >= x) by (nonlinear_arith)
            requires
                d > 0,
                n >= d * x,
                n >= 0,
        {
            assert(2 * n + d >= (2 * d) * x);
        }
    } else {
        assert((-2 * n + d) / (2 * d) <= -x) by (nonlinear_arith)
            requires
                d > 0,
                n >= d * x,
                n < 0,
        {
            assert(-2 * n + d < (2 * d) * (-x + 1));
        }
    }
}

/// The settings window never leaves the work area's top-left corner, and
/// the mixer never rises above the work-area top.
pub proof fn lemma_placement_stays_inside_the_top_left(wa: PhysicalRect, scale_percent: u32)
    ensures
        placed(SurfaceId::Settings, wa, scale_percent as int).x >= wa.x,
        placed(SurfaceId::Settings, wa, scale_percent as int).y >= wa.y,
        placed(SurfaceId::Mixer, wa, scale_percent as int).y >= wa.y,
{
    let p = scale_percent as int;
    let (sl, st, sd, sw, sh) = placement(SurfaceId::Settings, wa, p);
    lemma_round_div_at_least(wa.x as int, sl, 200);
    lemma_round_div_at_least(wa.y as int, st, 200);
    let (ml, mt, md, mw, mh) = placement(SurfaceId::Mixer, wa, p);
    lemma_round_div_at_least(wa.y as int, mt, 100);
}

/// Rounding lands on the nearest integer: `round_div(n, d) * d` is within
/// half of `d` from `n`, with an exact half going away from zero.
pub proof fn lemma_round_div_nearest(n: int, d: int)
    requires
        d > 0,
    ensures
        -d <= 2 * (round_div(n, d) * d - n) <= d,
        n >= 0 ==> round_div(n, d) >= 0,
        n <= 0 ==> round_div(n, d) <= 0,
{
    let q = round_div(n, d);
    if n >= 0 {
        assert(-d <= 2 * (q * d - n) <= d && q >= 0 && (n == 0 ==> q == 0)) by (nonlinear_arith)
            requires
                d > 0,
                n >= 0,
                q == (2 * n + d) / (2 * d),
        {
            let m = 2 * n + d;
            assert(m == (2 * d) * (m / (2 * d)) + m % (2 * d));
            assert(0 <= m % (2 * d) < 2 * d);
        }
    } else {
        assert(-d <= 2 * (q * d - n) <= d && q <= 0) by (nonlinear_arith)
            requires
                d > 0,
                n < 0,
                q == -((-2 * n + d) / (2 * d)),
        {
            let m = -2 * n + d;
            assert(m == (2 * d) * (m / (2 * d)) + m % (2 * d));
            assert(0 <= m % (2 * d) < 2 * d);
        }
    }
}

} // verus!
