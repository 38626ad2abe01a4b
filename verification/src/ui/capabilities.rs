//! Capability-driven material and motion resolution.
//!
//! The host measures the display session and publishes a [`UiCapabilities`]
//! snapshot; renderers consume the resolved material via
//! [`resolve_material`]. Everything here is deterministic given the
//! capabilities.

use vstd::prelude::*;
use crate::ui::model::{MaterialMode, MotionMode};
use crate::ui::surface::WorkArea;

verus! {

/// Capabilities of the current display session, as detected by the host.
#[derive(Debug, Clone, Copy, PartialEq, Eq, Structural)]
pub struct UiCapabilities {
    /// Desktop composition is enabled (for example DWM on Windows).
    pub compositor: bool,
    /// The compositor can blur the backdrop behind translucent surfaces.
    pub blur: bool,
    /// System high-contrast mode is active; forces opaque rendering.
    pub high_contrast: bool,
    /// The system prefers reduced motion.
    pub reduced_motion: bool,
    /// DPI scale in effect, in percent (100 = 1x, 125 = 1.25x). Scales are
    /// whole percentages: a fractional scale such as 4/3 is given rounded
    /// (133), which can differ by a pixel from the exact scale (532 px
    /// instead of 533 for 400 px).
    pub dpi_percent: u32,
    /// Monitor work area the surfaces are placed against.
    pub work_area: WorkArea,
}

/// The material treatment a renderer must actually apply, from best to the
/// always-available fallback.
#[derive(Debug, Clone, Copy, PartialEq, Eq, Structural)]
pub enum ResolvedMaterial {
    /// Translucent surface with blurred backdrop.
    Blurred,
    /// Translucent surface without backdrop blur.
    Translucent,
    /// Fully opaque surface.
    Opaque,
}

impl ResolvedMaterial {
    pub fn is_opaque(self) -> (r: bool)
        ensures
            r == (self == ResolvedMaterial::Opaque),
    {
        matches!(self, ResolvedMaterial::Opaque)
    }

    pub fn is_translucent(self) -> (r: bool)
        ensures
            r == (self != ResolvedMaterial::Opaque),
    {
        !self.is_opaque()
    }
}

/// The material ladder: high contrast or an explicit opaque request wins;
/// `Auto` takes the best the compositor offers; an explicit `Translucent`
/// never blurs; without a compositor everything is opaque.
pub open spec fn material_for(requested: MaterialMode, caps: UiCapabilities) -> ResolvedMaterial {
    if caps.high_contrast || requested == MaterialMode::Opaque {
        ResolvedMaterial::Opaque
    } else if !caps.compositor {
        ResolvedMaterial::Opaque
    } else if requested == MaterialMode::Auto && caps.blur {
        ResolvedMaterial::Blurred
    } else {
        ResolvedMaterial::Translucent
    }
}

/// Resolve the requested material mode to what the platform can honor.
pub fn resolve_material(requested: MaterialMode, caps: &UiCapabilities) -> (r: ResolvedMaterial)
    ensures
        r == material_for(requested, *caps),
{
    if caps.high_contrast || requested == MaterialMode::Opaque {
        return ResolvedMaterial::Opaque;
    }
    match requested {
        MaterialMode::Auto => {
            if caps.compositor && caps.blur {
                ResolvedMaterial::Blurred
            } else if caps.compositor {
                ResolvedMaterial::Translucent
            } else {
                ResolvedMaterial::Opaque
            }
        },
        MaterialMode::Translucent => {
            if caps.compositor {
                ResolvedMaterial::Translucent
            } else {
                ResolvedMaterial::Opaque
            }
        },
        MaterialMode::Opaque => ResolvedMaterial::Opaque,
    }
}

/// High contrast forces an opaque surface whatever was requested and
/// whatever the compositor supports.
pub proof fn lemma_high_contrast_forces_opaque(requested: MaterialMode, caps: UiCapabilities)
    requires
        caps.high_contrast,
    ensures
        material_for(requested, caps) == ResolvedMaterial::Opaque,
{
}

/// Only an `Auto` request on a compositor that blurs, without high
/// contrast, ever resolves to the blurred material.
pub proof fn lemma_blur_only_on_request_and_support(requested: MaterialMode, caps: UiCapabilities)
    ensures
        material_for(requested, caps) == ResolvedMaterial::Blurred <==> (requested
            == MaterialMode::Auto && caps.compositor && caps.blur && !caps.high_contrast),
{
}

/// The resolved material never improves when capabilities degrade: losing
/// blur or the compositor, or gaining high contrast, never moves the result
/// up the ladder.
pub open spec fn material_rank(m: ResolvedMaterial) -> int {
    match m {
        ResolvedMaterial::Blurred => 2,
        ResolvedMaterial::Translucent => 1,
        ResolvedMaterial::Opaque => 0,
    }
}

/// Degrading capabilities never improves the resolved material.
pub proof fn lemma_material_monotone_in_capabilities(
    requested: MaterialMode,
    better: UiCapabilities,
    worse: UiCapabilities,
)
    requires
        worse.compositor ==> better.compositor,
        worse.blur ==> better.blur,
        better.high_contrast ==> worse.high_contrast,
    ensures
        material_rank(material_for(requested, worse)) <= material_rank(material_for(requested, better)),
{
}

/// Motion policy after the system reduced-motion preference: full motion is
/// downgraded to reduced motion when the system asks for it; reduced and
/// disabled motion pass through.
pub open spec fn motion_for(requested: MotionMode, caps: UiCapabilities) -> MotionMode {
    if caps.reduced_motion && requested == MotionMode::Full {
        MotionMode::Reduced
    } else {
        requested
    }
}

/// Resolve the requested motion mode against the system preference.
pub fn resolve_motion(requested: MotionMode, caps: &UiCapabilities) -> (r: MotionMode)
    ensures
        r == motion_for(requested, *caps),
{
    if caps.reduced_motion && requested == MotionMode::Full {
        MotionMode::Reduced
    } else {
        requested
    }
}

/// The system's reduced-motion preference only ever lowers full motion to
/// reduced motion: without the preference the requested mode stands, and
/// reduced or disabled motion is never changed.
pub proof fn lemma_reduced_motion_only_downgrades_full(requested: MotionMode, caps: UiCapabilities)
    ensures
        !caps.reduced_motion ==> motion_for(requested, caps) == requested,
        requested != MotionMode::Full ==> motion_for(requested, caps) == requested,
        caps.reduced_motion && requested == MotionMode::Full ==> motion_for(requested, caps)
            == MotionMode::Reduced,
{
}

/// The material ladder: an opaque request, high contrast or a missing
/// compositor give an opaque surface; otherwise an `Auto` request blurs
/// when the compositor can and is translucent when it cannot, and an
/// explicit translucent request is translucent.
pub proof fn lemma_material_ladder(requested: MaterialMode, caps: UiCapabilities)
    ensures
        requested == MaterialMode::Opaque || caps.high_contrast || !caps.compositor
            ==> material_for(requested, caps) == ResolvedMaterial::Opaque,
        !caps.high_contrast && caps.compositor && requested == MaterialMode::Auto
            ==> material_for(requested, caps) == (if caps.blur {
            ResolvedMaterial::Blurred
        } else {
            ResolvedMaterial::Translucent
        }),
        !caps.high_contrast && caps.compositor && requested == MaterialMode::Translucent
            ==> material_for(requested, caps) == ResolvedMaterial::Translucent,
{
}

} // verus!
