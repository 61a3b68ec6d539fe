//! The rectangle descriptor handed to the rasterizer.

use vstd::prelude::*;

use crate::color::Rgb;

verus! {

/// Alpha value of a fully opaque rectangle, in 1/255 units.
pub const ALPHA_OPAQUE: u8 = 255;

/// An axis-aligned rectangle in the same linear units as the layout
/// metrics. A zero-area rectangle is a legal no-op placeholder; width and
/// height are never negative.
#[derive(Clone, Copy, PartialEq, Eq, Structural, Debug)]
pub struct RenderRect {
    pub x: i64,
    pub y: i64,
    pub width: i64,
    pub height: i64,
    pub color: Rgb,
    pub alpha: u8,
}

/// Clamp a (possibly negative) extent to zero.
pub open spec fn clamp0(v: int) -> int {
    if v < 0 {
        0
    } else {
        v
    }
}

/// The rectangle with origin `(x, y)` and the given extents, the extents
/// clamped to zero so the well-formedness invariant holds by construction.
pub open spec fn mk_rect(x: int, y: int, w: int, h: int, color: Rgb, alpha: u8) -> RenderRect
    recommends
        i64::MIN <= x <= i64::MAX,
        i64::MIN <= y <= i64::MAX,
        w <= i64::MAX,
        h <= i64::MAX,
{
    RenderRect {
        x: x as i64,
        y: y as i64,
        width: clamp0(w) as i64,
        height: clamp0(h) as i64,
        color,
        alpha,
    }
}

impl RenderRect {
    /// Structural invariant: extents are non-negative.
    pub open spec fn wf(self) -> bool {
        self.width >= 0 && self.height >= 0
    }

    /// True of a rectangle that would actually paint pixels.
    pub open spec fn is_visible(self) -> bool {
        self.width > 0 && self.height > 0
    }

    pub fn new(x: i64, y: i64, width: i64, height: i64, color: Rgb, alpha: u8) -> (r: RenderRect)
        ensures
            r == mk_rect(x as int, y as int, width as int, height as int, color, alpha),
            r.wf(),
    {
        let w: i64 = if width < 0 {
            0
        } else {
            width
        };
        let h: i64 = if height < 0 {
            0
        } else {
            height
        };
        RenderRect { x, y, width: w, height: h, color, alpha }
    }
}

} // verus!
