//! Platform-neutral surface geometry and placement.
//!
//! All placement is pure integer math over a [`WorkArea`]: negative-origin
//! monitors and secondary displays work the same as the primary because
//! coordinates are simply relative to the work-area origin.

use vstd::prelude::*;

verus! {

/// A monitor work area (usable screen region, in pixels). `x`/`y` may be
/// negative; `width`/`height` are positive.
#[derive(Debug, Clone, Copy, PartialEq, Eq, Structural)]
pub struct WorkArea {
    pub x: i32,
    pub y: i32,
    pub width: i32,
    pub height: i32,
}

impl WorkArea {
    pub fn new(x: i32, y: i32, width: i32, height: i32) -> (r: Self)
        ensures
            r == (WorkArea { x, y, width, height }),
    {
        WorkArea { x, y, width, height }
    }

    /// X coordinate of the right edge (exclusive).
    pub fn right(self) -> (r: i32)
        requires
            i32::MIN <= self.x + self.width <= i32::MAX,
        ensures
            r == self.x + self.width,
    {
        self.x + self.width
    }

    /// Y coordinate of the bottom edge (exclusive).
    pub fn bottom(self) -> (r: i32)
        requires
            i32::MIN <= self.y + self.height <= i32::MAX,
        ensures
            r == self.y + self.height,
    {
        self.y + self.height
    }
}

/// A surface size in pixels.
#[derive(Debug, Clone, Copy, PartialEq, Eq, Structural)]
pub struct SurfaceSize {
    pub width: i32,
    pub height: i32,
}

impl SurfaceSize {
    pub fn new(width: i32, height: i32) -> (r: Self)
        ensures
            r == (SurfaceSize { width, height }),
    {
        SurfaceSize { width, height }
    }
}

/// An axis-aligned rectangle; `left`/`top` inclusive, `right`/`bottom`
/// exclusive.
#[derive(Debug, Clone, Copy, PartialEq, Eq, Structural)]
pub struct SurfaceRect {
    pub left: i32,
    pub top: i32,
    pub right: i32,
    pub bottom: i32,
}

impl SurfaceRect {
    pub fn new(left: i32, top: i32, right: i32, bottom: i32) -> (r: Self)
        ensures
            r == (SurfaceRect { left, top, right, bottom }),
    {
        SurfaceRect { left, top, right, bottom }
    }

    pub fn width(self) -> (r: i32)
        requires
            i32::MIN <= self.right - self.left <= i32::MAX,
        ensures
            r == self.right - self.left,
    {
        self.right - self.left
    }

    pub fn height(self) -> (r: i32)
        requires
            i32::MIN <= self.bottom - self.top <= i32::MAX,
        ensures
            r == self.bottom - self.top,
    {
        self.bottom - self.top
    }
}

/// Every intermediate of a bottom-right placement fits in `i32`.
pub open spec fn overlay_fits(work_area: WorkArea, size: SurfaceSize, margin_x: int, margin_y: int) -> bool {
    &&& i32::MIN <= work_area.x + work_area.width <= i32::MAX
    &&& i32::MIN <= work_area.y + work_area.height <= i32::MAX
    &&& i32::MIN <= work_area.x + work_area.width - margin_x <= i32::MAX
    &&& i32::MIN <= work_area.y + work_area.height - margin_y <= i32::MAX
    &&& i32::MIN <= work_area.x + work_area.width - margin_x - size.width <= i32::MAX
    &&& i32::MIN <= work_area.y + work_area.height - margin_y - size.height <= i32::MAX
}

/// The bottom-right rectangle inset by the margins.
pub open spec fn overlay_rect(work_area: WorkArea, size: SurfaceSize, margin_x: int, margin_y: int) -> SurfaceRect {
    let right = work_area.x + work_area.width - margin_x;
    let bottom = work_area.y + work_area.height - margin_y;
    SurfaceRect {
        left: (right - size.width) as i32,
        top: (bottom - size.height) as i32,
        right: right as i32,
        bottom: bottom as i32,
    }
}

/// Place a surface in the bottom-right corner of `work_area`, inset
/// `margin_x` from the right edge and `margin_y` from the bottom edge. No
/// clamping is applied.
pub fn place_overlay(work_area: WorkArea, size: SurfaceSize, margin_x: i32, margin_y: i32) -> (r: SurfaceRect)
    requires
        overlay_fits(work_area, size, margin_x as int, margin_y as int),
    ensures
        r == overlay_rect(work_area, size, margin_x as int, margin_y as int),
        r.right == work_area.x + work_area.width - margin_x,
        r.bottom == work_area.y + work_area.height - margin_y,
        r.right - r.left == size.width,
        r.bottom - r.top == size.height,
{
    let right = work_area.right() - margin_x;
    let bottom = work_area.bottom() - margin_y;
    SurfaceRect { left: right - size.width, top: bottom - size.height, right, bottom }
}

/// Every intermediate of the mixer placement fits in `i32`.
pub open spec fn mixer_fits(
    work_area: WorkArea,
    mixer_size: SurfaceSize,
    overlay_size: SurfaceSize,
    margin_x: int,
    margin_y: int,
    gap: int,
) -> bool {
    let overlay = overlay_rect(work_area, overlay_size, margin_x, margin_y);
    &&& overlay_fits(work_area, overlay_size, margin_x, margin_y)
    &&& i32::MIN <= overlay.right - mixer_size.width <= i32::MAX
    &&& i32::MIN <= overlay.top - gap <= i32::MAX
    &&& i32::MIN <= overlay.top - gap - mixer_size.height <= i32::MAX
}

/// Place the mixer directly above the overlay: the same right edge, and
/// exactly `gap` pixels between the mixer's bottom and the overlay's top.
pub fn place_mixer_above_overlay(
    work_area: WorkArea,
    mixer_size: SurfaceSize,
    overlay_size: SurfaceSize,
    margin_x: i32,
    margin_y: i32,
    gap: i32,
) -> (r: SurfaceRect)
    requires
        mixer_fits(work_area, mixer_size, overlay_size, margin_x as int, margin_y as int, gap as int),
    ensures
        ({
            let overlay = overlay_rect(work_area, overlay_size, margin_x as int, margin_y as int);
            &&& r.right == overlay.right
            &&& r.bottom + gap == overlay.top
            &&& r.right - r.left == mixer_size.width
            &&& r.bottom - r.top == mixer_size.height
        }),
{
    let overlay = place_overlay(work_area, overlay_size, margin_x, margin_y);
    let right = overlay.right;
    let bottom = overlay.top - gap;
    SurfaceRect { left: right - mixer_size.width, top: bottom - mixer_size.height, right, bottom }
}

/// Offset that centers `len` inside `avail`, never negative (a surface
/// larger than the work area is pinned to the work-area origin).
pub open spec fn centered_offset(avail: int, len: int) -> int {
    if avail - len <= 0 { 0 } else { (avail - len) / 2 }
}

/// Every intermediate of a centered placement fits in `i32`.
pub open spec fn centered_fits(work_area: WorkArea, size: SurfaceSize) -> bool {
    &&& i32::MIN <= work_area.width - size.width <= i32::MAX
    &&& i32::MIN <= work_area.height - size.height <= i32::MAX
    &&& i32::MIN <= work_area.x + centered_offset(work_area.width as int, size.width as int) + size.width <= i32::MAX
    &&& i32::MIN <= work_area.y + centered_offset(work_area.height as int, size.height as int) + size.height <= i32::MAX
    &&& i32::MIN <= work_area.x + centered_offset(work_area.width as int, size.width as int) <= i32::MAX
    &&& i32::MIN <= work_area.y + centered_offset(work_area.height as int, size.height as int) <= i32::MAX
}

/// Center a surface in `work_area`, keeping its size; when the surface is
/// larger than the work area along an axis it is pinned to that axis'
/// work-area origin.
pub fn place_centered(work_area: WorkArea, size: SurfaceSize) -> (r: SurfaceRect)
    requires
        centered_fits(work_area, size),
    ensures
        r.left == work_area.x + centered_offset(work_area.width as int, size.width as int),
        r.top == work_area.y + centered_offset(work_area.height as int, size.height as int),
        r.right - r.left == size.width,
        r.bottom - r.top == size.height,
        r.left >= work_area.x,
        r.top >= work_area.y,
{
    let free_x = work_area.width - size.width;
    let free_y = work_area.height - size.height;
    let dx: i32 = if free_x <= 0 { 0 } else { free_x / 2 };
    let dy: i32 = if free_y <= 0 { 0 } else { free_y / 2 };
    let left = work_area.x + dx;
    let top = work_area.y + dy;
    SurfaceRect { left, top, right: left + size.width, bottom: top + size.height }
}

/// When the overlay, the gap and the mixer fit between the margins of the
/// work area, both placed surfaces lie inside the work area and do not
/// overlap.
pub proof fn lemma_stack_inside_work_area(
    work_area: WorkArea,
    mixer_size: SurfaceSize,
    overlay_size: SurfaceSize,
    margin_x: int,
    margin_y: int,
    gap: int,
)
    requires
        margin_x >= 0,
        margin_y >= 0,
        gap >= 0,
        overlay_size.width >= 0,
        overlay_size.height >= 0,
        mixer_size.width >= 0,
        mixer_size.height >= 0,
        mixer_fits(work_area, mixer_size, overlay_size, margin_x, margin_y, gap),
        overlay_size.width + margin_x <= work_area.width,
        mixer_size.width + margin_x <= work_area.width,
        overlay_size.height + gap + mixer_size.height + margin_y <= work_area.height,
    ensures
        ({
            let overlay = overlay_rect(work_area, overlay_size, margin_x, margin_y);
            let mixer_left = overlay.right - mixer_size.width;
            let mixer_top = overlay.top - gap - mixer_size.height;
            let mixer_bottom = overlay.top - gap;
            &&& work_area.x <= overlay.left
            &&& overlay.right <= work_area.x + work_area.width
            &&& work_area.y <= overlay.top
            &&& overlay.bottom <= work_area.y + work_area.height
            &&& work_area.x <= mixer_left
            &&& work_area.y <= mixer_top
            &&& mixer_bottom <= overlay.top
        }),
{
}

/// A centered surface that fits the work area lies inside it.
pub proof fn lemma_centered_inside_work_area(work_area: WorkArea, size: SurfaceSize)
    requires
        0 <= size.width <= work_area.width,
        0 <= size.height <= work_area.height,
    ensures
        work_area.x + centered_offset(work_area.width as int, size.width as int) + size.width
            <= work_area.x + work_area.width,
        work_area.y + centered_offset(work_area.height as int, size.height as int) + size.height
            <= work_area.y + work_area.height,
{
}

} // verus!
