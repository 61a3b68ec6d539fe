//! Convert a cursor into a bounded batch of rects.
//!
//! The cursor shape, and for the filled block shape the active selection
//! mode, decide which rectangles must be painted for the cursor this frame.
//! At most four rectangles are ever needed, so the result is a fixed
//! four-slot batch that the renderer drains front to back.

use vstd::arithmetic::div_mod::{lemma_div_pos_is_pos, lemma_multiply_divide_lt};
use vstd::arithmetic::mul::lemma_mul_upper_bound;
use vstd::prelude::*;

use crate::color::Rgb;
use crate::rects::{clamp0, mk_rect, RenderRect, ALPHA_OPAQUE};

verus! {

/// The paint style of the cursor.
#[derive(Clone, Copy, PartialEq, Eq, Structural, Debug)]
pub enum CursorShape {
    /// Filled block covering the whole cell.
    Block,
    /// Underscore flush with the bottom of the cell.
    Underline,
    /// Thin vertical bar at the left edge of the cell.
    Beam,
    /// Unfilled outline of the cell.
    HollowBlock,
    /// Invisible cursor.
    Hidden,
}

/// The active text-selection mode.
#[derive(Clone, Copy, PartialEq, Eq, Structural, Debug)]
pub enum SelectionType {
    /// Plain range selection.
    Simple,
    /// Rectangular block selection.
    Block,
    /// Selection expanded to semantic units.
    Semantic,
    /// Whole-line selection.
    Lines,
}

/// The part of an active selection that cursor rendering reads.
#[derive(Clone, Copy, PartialEq, Eq, Structural, Debug)]
pub struct Selection {
    pub ty: SelectionType,
}

/// Cell layout metrics, all in the same linear unit.
#[derive(Clone, Copy, PartialEq, Eq, Structural, Debug)]
pub struct SizeInfo {
    pub cell_width: u32,
    pub cell_height: u32,
    pub padding_x: u32,
    pub padding_y: u32,
}

impl SizeInfo {
    /// Cell extents are positive; the caller validates this before
    /// handing the metrics over.
    pub open spec fn wf(self) -> bool {
        self.cell_width >= 1 && self.cell_height >= 1
    }

    pub fn new(cell_width: u32, cell_height: u32, padding_x: u32, padding_y: u32) -> (s: SizeInfo)
        requires
            cell_width >= 1,
            cell_height >= 1,
        ensures
            s == (SizeInfo { cell_width, cell_height, padding_x, padding_y }),
            s.wf(),
    {
        SizeInfo { cell_width, cell_height, padding_x, padding_y }
    }
}

/// The cursor thickness as an exact fraction of the cell width.
#[derive(Clone, Copy, PartialEq, Eq, Structural, Debug)]
pub struct ThicknessFraction {
    pub numer: u32,
    pub denom: u32,
}

impl ThicknessFraction {
    /// The fraction lies in (0, 1].
    pub open spec fn wf(self) -> bool {
        0 < self.numer <= self.denom
    }

    pub fn new(numer: u32, denom: u32) -> (f: ThicknessFraction)
        requires
            0 < numer <= denom,
        ensures
            f == (ThicknessFraction { numer, denom }),
            f.wf(),
    {
        ThicknessFraction { numer, denom }
    }
}

/// A snapshot of the cursor as the content layer hands it over: grid
/// position, paint style, double-width flag and resolved color.
#[derive(Clone, Copy, PartialEq, Eq, Structural, Debug)]
pub struct RenderableCursor {
    pub shape: CursorShape,
    pub line: u16,
    pub column: u16,
    pub is_wide: bool,
    pub color: Rgb,
}

/// Horizontal origin of the cursor cell.
pub open spec fn origin_x(column: u16, size: SizeInfo) -> int {
    column * size.cell_width + size.padding_x
}

/// Vertical origin of the cursor cell.
pub open spec fn origin_y(line: u16, size: SizeInfo) -> int {
    line * size.cell_height + size.padding_y
}

/// `num / den` rounded to the nearest integer, halves rounded up.
pub open spec fn round_to_nearest(num: int, den: int) -> int
    recommends
        den > 0,
        num >= 0,
{
    (2 * num + den) / (2 * den)
}

/// Effective cursor thickness: the fraction of the cell width, rounded,
/// and floored at one unit so it never degenerates to zero.
pub open spec fn thickness_spec(frac: ThicknessFraction, size: SizeInfo) -> int {
    let rounded: int = round_to_nearest(frac.numer * size.cell_width, frac.denom as int);
    if rounded < 1 {
        1
    } else {
        rounded
    }
}

/// Effective cell width: doubled for a cursor over a double-width glyph.
pub open spec fn effective_width(size: SizeInfo, is_wide: bool) -> int {
    if is_wide {
        2 * size.cell_width
    } else {
        size.cell_width as int
    }
}

/// A fraction in (0, 1] of a positive width, rounded to the nearest
/// integer, never exceeds that width.
pub proof fn lemma_rounded_fraction_bounds(n: int, d: int, w: int)
    requires
        0 < n <= d,
        1 <= w,
    ensures
        0 <= round_to_nearest(n * w, d) <= w,
{
    lemma_mul_upper_bound(n, d, w, w);
    assert(0 <= 2 * (n * w) + d < 2 * d * (w + 1)) by (nonlinear_arith)
        requires
            n * w <= d * w,
            d >= 1,
            w >= 1,
            n >= 1,
    ;
    lemma_multiply_divide_lt(2 * (n * w) + d, 2 * d, w + 1);
    lemma_div_pos_is_pos(2 * (n * w) + d, 2 * d);
}

/// Compute the effective cursor thickness in whole units.
///
/// The rounding is exact rational arithmetic: `round(numer/denom * w)`
/// with halves rounded up, then floored at one unit.
pub fn cursor_thickness(frac: ThicknessFraction, size: &SizeInfo) -> (t: i64)
    requires
        frac.wf(),
        size.wf(),
    ensures
        t == thickness_spec(frac, *size),
        1 <= t <= size.cell_width,
{
    proof {
        lemma_mul_upper_bound(
            2 * (frac.numer as int),
            2 * 0xFFFF_FFFFint,
            size.cell_width as int,
            0xFFFF_FFFFint,
        );
    }
    let num: u128 = 2 * (frac.numer as u128) * (size.cell_width as u128) + (frac.denom as u128);
    let den: u128 = 2 * (frac.denom as u128);
    let q: u128 = num / den;
    proof {
        let n: int = frac.numer as int;
        let d: int = frac.denom as int;
        let w: int = size.cell_width as int;
        lemma_rounded_fraction_bounds(n, d, w);
        assert(2 * n * w == 2 * (n * w)) by (nonlinear_arith);
        assert(num == 2 * (n * w) + d);
        assert(q == round_to_nearest(n * w, d));
    }
    if q < 1 {
        1
    } else {
        q as i64
    }
}

/// The batch that paints nothing: all four slots empty.
pub open spec fn empty_batch() -> Seq<Option<RenderRect>> {
    seq![None, None, None, None]
}

/// Beam: a thin vertical bar at the left edge, full cell height.
pub open spec fn beam_batch(x: int, y: int, height: int, thickness: int, color: Rgb) -> Seq<
    Option<RenderRect>,
> {
    seq![Some(mk_rect(x, y, thickness, height, color, ALPHA_OPAQUE)), None, None, None]
}

/// Underline: the full effective width, `thickness` tall, flush with the
/// bottom edge of the cell.
pub open spec fn underline_batch(
    x: int,
    y: int,
    width: int,
    height: int,
    thickness: int,
    color: Rgb,
) -> Seq<Option<RenderRect>> {
    seq![
        Some(mk_rect(x, y + height - thickness, width, thickness, color, ALPHA_OPAQUE)),
        None,
        None,
        None,
    ]
}

/// Hollow block: top, bottom, left and right edge of the cell, each
/// `thickness` thick, the vertical edges mitered to span only the
/// interior height between the horizontal edges.
pub open spec fn hollow_batch(
    x: int,
    y: int,
    width: int,
    height: int,
    thickness: int,
    color: Rgb,
) -> Seq<Option<RenderRect>> {
    let vertical_y: int = y + thickness;
    let vertical_height: int = height - 2 * thickness;
    seq![
        Some(mk_rect(x, y, width, thickness, color, ALPHA_OPAQUE)),
        Some(mk_rect(x, y + height - thickness, width, thickness, color, ALPHA_OPAQUE)),
        Some(mk_rect(x, vertical_y, thickness, vertical_height, color, ALPHA_OPAQUE)),
        Some(mk_rect(x + width - thickness, vertical_y, thickness, vertical_height, color,
        ALPHA_OPAQUE)),
    ]
}

/// The fixed indicator color of the selection-mode glyphs, distinct from
/// the normal cursor color.
pub open spec fn indicator_color() -> Rgb {
    Rgb { r: 0, g: 255, b: 0 }
}

/// The inner box of a selection-mode glyph: the cell inset by one unit on
/// every side, degenerate extents clamped to zero.
pub open spec fn glyph_inner(v: int) -> int {
    clamp0(v - 2)
}

/// Glyph stroke weight: double the normal cursor thickness.
pub open spec fn glyph_thickness(thickness: int) -> int {
    2 * thickness
}

/// Glyph "L" (whole-line selection): a full-height left stroke and a
/// bottom bar.
pub open spec fn letter_l_batch(x: int, y: int, width: int, height: int, thickness: int) -> Seq<
    Option<RenderRect>,
> {
    let t: int = glyph_thickness(thickness);
    let gx: int = x + 1;
    let gy: int = y + 1;
    let gw: int = glyph_inner(width);
    let gh: int = glyph_inner(height);
    seq![
        Some(mk_rect(gx, gy + gh - t, gw, t, indicator_color(), ALPHA_OPAQUE)),
        Some(mk_rect(gx, gy, t, gh, indicator_color(), ALPHA_OPAQUE)),
        None,
        None,
    ]
}

/// Glyph "S" (semantic selection): top bar, bottom bar, a left stroke in
/// the upper half of the interior and a right stroke in the lower half.
pub open spec fn letter_s_batch(x: int, y: int, width: int, height: int, thickness: int) -> Seq<
    Option<RenderRect>,
> {
    let t: int = glyph_thickness(thickness);
    let gx: int = x + 1;
    let gy: int = y + 1;
    let gw: int = glyph_inner(width);
    let gh: int = glyph_inner(height);
    let stroke_len: int = clamp0(gh - 2 * t) / 2;
    seq![
        Some(mk_rect(gx, gy, gw, t, indicator_color(), ALPHA_OPAQUE)),
        Some(mk_rect(gx, gy + gh - t, gw, t, indicator_color(), ALPHA_OPAQUE)),
        Some(mk_rect(gx, gy + t, t, stroke_len, indicator_color(), ALPHA_OPAQUE)),
        Some(mk_rect(gx + gw - t, gy + gh / 2, t, stroke_len, indicator_color(), ALPHA_OPAQUE)),
    ]
}

/// Glyph "b" (block selection): a full-height left stroke, a half-height
/// right stroke starting at the vertical center, a center bar and a
/// bottom bar.
pub open spec fn letter_b_batch(x: int, y: int, width: int, height: int, thickness: int) -> Seq<
    Option<RenderRect>,
> {
    let t: int = glyph_thickness(thickness);
    let gx: int = x + 1;
    let gy: int = y + 1;
    let gw: int = glyph_inner(width);
    let gh: int = glyph_inner(height);
    seq![
        Some(mk_rect(gx, gy + gh / 2 - t, gw, t, indicator_color(), ALPHA_OPAQUE)),
        Some(mk_rect(gx, gy + gh - t, gw, t, indicator_color(), ALPHA_OPAQUE)),
        Some(mk_rect(gx, gy, t, gh, indicator_color(), ALPHA_OPAQUE)),
        Some(mk_rect(gx + gw - t, gy + gh / 2, t, gh / 2, indicator_color(), ALPHA_OPAQUE)),
    ]
}

/// Glyph "n" (simple selection): a top bar plus a full-height left stroke
/// and a right stroke starting one stroke weight below the top.
pub open spec fn letter_n_batch(x: int, y: int, width: int, height: int, thickness: int) -> Seq<
    Option<RenderRect>,
> {
    let t: int = glyph_thickness(thickness);
    let gx: int = x + 1;
    let gy: int = y + 1;
    let gw: int = glyph_inner(width);
    let gh: int = glyph_inner(height);
    seq![
        Some(mk_rect(gx, gy + t, gw - t, t, indicator_color(), ALPHA_OPAQUE)),
        Some(mk_rect(gx, gy, t, gh, indicator_color(), ALPHA_OPAQUE)),
        Some(mk_rect(gx + gw - t, gy + t, t, gh - t, indicator_color(), ALPHA_OPAQUE)),
        None,
    ]
}

/// The glyph drawn over a filled block cursor for each selection mode.
pub open spec fn block_selection_batch(
    ty: SelectionType,
    x: int,
    y: int,
    width: int,
    height: int,
    thickness: int,
) -> Seq<Option<RenderRect>> {
    match ty {
        SelectionType::Simple => letter_n_batch(x, y, width, height, thickness),
        SelectionType::Block => letter_b_batch(x, y, width, height, thickness),
        SelectionType::Semantic => letter_s_batch(x, y, width, height, thickness),
        SelectionType::Lines => letter_l_batch(x, y, width, height, thickness),
    }
}

/// What must be painted for the cursor this frame: the whole shape and
/// selection dispatch over the derived geometry.
///
/// A filled block cursor with no active selection paints nothing: the
/// renderer draws it by swapping the cell's foreground and background.
/// Unknown shapes degrade silently to the empty batch.
pub open spec fn cursor_batch(
    cursor: RenderableCursor,
    size: SizeInfo,
    frac: ThicknessFraction,
    selection: Option<Selection>,
) -> Seq<Option<RenderRect>> {
    let x: int = origin_x(cursor.column, size);
    let y: int = origin_y(cursor.line, size);
    let t: int = thickness_spec(frac, size);
    let w: int = effective_width(size, cursor.is_wide);
    let h: int = size.cell_height as int;
    match cursor.shape {
        CursorShape::Beam => beam_batch(x, y, h, t, cursor.color),
        CursorShape::Underline => underline_batch(x, y, w, h, t, cursor.color),
        CursorShape::HollowBlock => hollow_batch(x, y, w, h, t, cursor.color),
        CursorShape::Block => match selection {
            Some(s) => block_selection_batch(s.ty, x, y, w, h, t),
            None => empty_batch(),
        },
        CursorShape::Hidden => empty_batch(),
    }
}

/// Cursor rect batch: four optional slots drained front to back, each
/// yielded at most once.
#[derive(Clone, Copy, PartialEq, Eq, Debug)]
pub struct CursorRects {
    pub rects: (Option<RenderRect>, Option<RenderRect>, Option<RenderRect>, Option<RenderRect>),
    pub index: usize,
}

impl CursorRects {
    /// The four slots, in the order they are yielded.
    pub open spec fn slots(self) -> Seq<Option<RenderRect>> {
        seq![self.rects.0, self.rects.1, self.rects.2, self.rects.3]
    }

    /// The next slot to yield.
    pub open spec fn pos(self) -> int {
        self.index as int
    }

    /// Yield the next slot, emptying it, or nothing once all four slots
    /// have been passed.
    pub fn next(&mut self) -> (r: Option<RenderRect>)
        ensures
            old(self).pos() < 4 ==> {
                &&& r == old(self).slots()[old(self).pos()]
                &&& final (self).slots() == old(self).slots().update(old(self).pos(), None)
                &&& final (self).pos() == old(self).pos() + 1
            },
            old(self).pos() >= 4 ==> r is None && *final (self) == *old(self),
    {
        if self.index >= 4 {
            return None;
        }
        let taken: Option<RenderRect> = match self.index {
            0 => {
                let r = self.rects.0;
                self.rects.0 = None;
                r
            },
            1 => {
                let r = self.rects.1;
                self.rects.1 = None;
                r
            },
            2 => {
                let r = self.rects.2;
                self.rects.2 = None;
                r
            },
            _ => {
                let r = self.rects.3;
                self.rects.3 = None;
                r
            },
        };
        self.index = self.index + 1;
        proof {
            assert(self.slots() =~= old(self).slots().update(old(self).pos(), None));
        }
        taken
    }
}

impl Default for CursorRects {
    /// The empty batch.
    fn default() -> (r: Self)
        ensures
            r.slots() == empty_batch(),
            r.pos() == 0,
    {
        let r = CursorRects { rects: (None, None, None, None), index: 0 };
        proof {
            assert(r.slots() =~= empty_batch());
        }
        r
    }
}

impl From<RenderRect> for CursorRects {
    /// A batch holding the one given rect.
    fn from(rect: RenderRect) -> (r: Self) {
        CursorRects { rects: (Some(rect), None, None, None), index: 0 }
    }
}

impl vstd::std_specs::convert::FromSpecImpl<RenderRect> for CursorRects {
    open spec fn obeys_from_spec() -> bool {
        true
    }

    open spec fn from_spec(rect: RenderRect) -> CursorRects {
        CursorRects { rects: (Some(rect), None, None, None), index: 0 }
    }
}

/// Geometry derived from 32-bit metrics and 16-bit grid positions stays
/// well inside these bounds, which keep every intermediate sum and
/// difference below representable in 64 bits.
pub open spec fn geometry_in_bounds(x: int, y: int, width: int, height: int, thickness: int) -> bool {
    &&& 0 <= x <= 0x1_0000_0000_0000
    &&& 0 <= y <= 0x1_0000_0000_0000
    &&& 0 <= width <= 0x2_0000_0000
    &&& 0 <= height <= 0x1_0000_0000
    &&& 1 <= thickness <= 0x1_0000_0000
}

/// Half of a non-negative length, rounded down.
fn half_floor(v: i64) -> (r: i64)
    requires
        v >= 0,
    ensures
        r == v as int / 2,
{
    ((v as u64) / 2) as i64
}

/// A batch holding a single beam rect.
fn beam(x: i64, y: i64, height: i64, thickness: i64, color: Rgb) -> (r: CursorRects)
    ensures
        r.slots() == beam_batch(x as int, y as int, height as int, thickness as int, color),
        r.pos() == 0,
{
    let rect = RenderRect::new(x, y, thickness, height, color, ALPHA_OPAQUE);
    let r = CursorRects::from(rect);
    proof {
        assert(r.slots() =~= beam_batch(x as int, y as int, height as int, thickness as int,
        color));
    }
    r
}

/// A batch holding a single underline rect.
fn underline(x: i64, y: i64, width: i64, height: i64, thickness: i64, color: Rgb) -> (r:
    CursorRects)
    requires
        geometry_in_bounds(x as int, y as int, width as int, height as int, thickness as int),
    ensures
        r.slots() == underline_batch(
            x as int,
            y as int,
            width as int,
            height as int,
            thickness as int,
            color,
        ),
        r.pos() == 0,
{
    let bottom_y: i64 = y + height - thickness;
    let rect = RenderRect::new(x, bottom_y, width, thickness, color, ALPHA_OPAQUE);
    let r = CursorRects::from(rect);
    proof {
        assert(r.slots() =~= underline_batch(x as int, y as int, width as int, height as int,
        thickness as int, color));
    }
    r
}

/// A batch holding a rect for each side of the hollow block cursor.
fn hollow(x: i64, y: i64, width: i64, height: i64, thickness: i64, color: Rgb) -> (r: CursorRects)
    requires
        geometry_in_bounds(x as int, y as int, width as int, height as int, thickness as int),
    ensures
        r.slots() == hollow_batch(
            x as int,
            y as int,
            width as int,
            height as int,
            thickness as int,
            color,
        ),
        r.pos() == 0,
{
    let top_line = RenderRect::new(x, y, width, thickness, color, ALPHA_OPAQUE);

    let vertical_y: i64 = y + thickness;
    let vertical_height: i64 = height - 2 * thickness;
    let left_line = RenderRect::new(x, vertical_y, thickness, vertical_height, color, ALPHA_OPAQUE);

    let bottom_y: i64 = y + height - thickness;
    let bottom_line = RenderRect::new(x, bottom_y, width, thickness, color, ALPHA_OPAQUE);

    let right_x: i64 = x + width - thickness;
    let right_line = RenderRect::new(right_x, vertical_y, thickness, vertical_height, color,
    ALPHA_OPAQUE);

    let r = CursorRects {
        rects: (Some(top_line), Some(bottom_line), Some(left_line), Some(right_line)),
        index: 0,
    };
    proof {
        assert(r.slots() =~= hollow_batch(x as int, y as int, width as int, height as int,
        thickness as int, color));
    }
    r
}

/// The empty batch for the filled block cursor: the renderer paints it by
/// swapping the cell's foreground and background, not with a rect.
pub fn block() -> (r: CursorRects)
    ensures
        r.slots() == empty_batch(),
        r.pos() == 0,
{
    CursorRects::default()
}

/// Glyph "L": a full-height left stroke and a bottom bar.
fn selection_type_letter_l(x: i64, y: i64, width: i64, height: i64, thickness: i64) -> (r:
    CursorRects)
    requires
        geometry_in_bounds(x as int, y as int, width as int, height as int, thickness as int),
    ensures
        r.slots() == letter_l_batch(
            x as int,
            y as int,
            width as int,
            height as int,
            thickness as int,
        ),
        r.pos() == 0,
{
    let t: i64 = 2 * thickness;
    let gx: i64 = x + 1;
    let gy: i64 = y + 1;
    let gw: i64 = if width < 2 {
        0
    } else {
        width - 2
    };
    let gh: i64 = if height < 2 {
        0
    } else {
        height - 2
    };
    let color = Rgb::new(0, 255, 0);

    let bottom_line = RenderRect::new(gx, gy + gh - t, gw, t, color, ALPHA_OPAQUE);
    let left_line = RenderRect::new(gx, gy, t, gh, color, ALPHA_OPAQUE);

    let r = CursorRects { rects: (Some(bottom_line), Some(left_line), None, None), index: 0 };
    proof {
        assert(r.slots() =~= letter_l_batch(x as int, y as int, width as int, height as int,
        thickness as int));
    }
    r
}

/// Glyph "S": top bar, bottom bar, upper-half left stroke, lower-half
/// right stroke.
fn selection_type_letter_s(x: i64, y: i64, width: i64, height: i64, thickness: i64) -> (r:
    CursorRects)
    requires
        geometry_in_bounds(x as int, y as int, width as int, height as int, thickness as int),
    ensures
        r.slots() == letter_s_batch(
            x as int,
            y as int,
            width as int,
            height as int,
            thickness as int,
        ),
        r.pos() == 0,
{
    let t: i64 = 2 * thickness;
    let gx: i64 = x + 1;
    let gy: i64 = y + 1;
    let gw: i64 = if width < 2 {
        0
    } else {
        width - 2
    };
    let gh: i64 = if height < 2 {
        0
    } else {
        height - 2
    };
    let color = Rgb::new(0, 255, 0);

    let top_line = RenderRect::new(gx, gy, gw, t, color, ALPHA_OPAQUE);
    let bottom_line = RenderRect::new(gx, gy + gh - t, gw, t, color, ALPHA_OPAQUE);

    let interior: i64 = gh - 2 * t;
    let stroke_len: i64 = if interior < 0 {
        0
    } else {
        half_floor(interior)
    };
    let half_gh: i64 = half_floor(gh);
    let left_line = RenderRect::new(gx, gy + t, t, stroke_len, color, ALPHA_OPAQUE);
    let right_line = RenderRect::new(gx + gw - t, gy + half_gh, t, stroke_len, color, ALPHA_OPAQUE);

    let r = CursorRects {
        rects: (Some(top_line), Some(bottom_line), Some(left_line), Some(right_line)),
        index: 0,
    };
    proof {
        assert(r.slots() =~= letter_s_batch(x as int, y as int, width as int, height as int,
        thickness as int));
    }
    r
}

/// Glyph "b": full-height left stroke, half-height right stroke, center
/// bar and bottom bar.
fn selection_type_letter_b(x: i64, y: i64, width: i64, height: i64, thickness: i64) -> (r:
    CursorRects)
    requires
        geometry_in_bounds(x as int, y as int, width as int, height as int, thickness as int),
    ensures
        r.slots() == letter_b_batch(
            x as int,
            y as int,
            width as int,
            height as int,
            thickness as int,
        ),
        r.pos() == 0,
{
    let t: i64 = 2 * thickness;
    let gx: i64 = x + 1;
    let gy: i64 = y + 1;
    let gw: i64 = if width < 2 {
        0
    } else {
        width - 2
    };
    let gh: i64 = if height < 2 {
        0
    } else {
        height - 2
    };
    let color = Rgb::new(0, 255, 0);

    let half_gh: i64 = half_floor(gh);
    let center_line = RenderRect::new(gx, gy + half_gh - t, gw, t, color, ALPHA_OPAQUE);
    let bottom_line = RenderRect::new(gx, gy + gh - t, gw, t, color, ALPHA_OPAQUE);
    let left_line = RenderRect::new(gx, gy, t, gh, color, ALPHA_OPAQUE);
    let right_line = RenderRect::new(gx + gw - t, gy + half_gh, t, half_gh, color, ALPHA_OPAQUE);

    let r = CursorRects {
        rects: (Some(center_line), Some(bottom_line), Some(left_line), Some(right_line)),
        index: 0,
    };
    proof {
        assert(r.slots() =~= letter_b_batch(x as int, y as int, width as int, height as int,
        thickness as int));
    }
    r
}

/// Glyph "n": top bar, full-height left stroke, right stroke starting one
/// stroke weight below the top.
fn selection_type_letter_n(x: i64, y: i64, width: i64, height: i64, thickness: i64) -> (r:
    CursorRects)
    requires
        geometry_in_bounds(x as int, y as int, width as int, height as int, thickness as int),
    ensures
        r.slots() == letter_n_batch(
            x as int,
            y as int,
            width as int,
            height as int,
            thickness as int,
        ),
        r.pos() == 0,
{
    let t: i64 = 2 * thickness;
    let gx: i64 = x + 1;
    let gy: i64 = y + 1;
    let gw: i64 = if width < 2 {
        0
    } else {
        width - 2
    };
    let gh: i64 = if height < 2 {
        0
    } else {
        height - 2
    };
    let color = Rgb::new(0, 255, 0);

    let top_line = RenderRect::new(gx, gy + t, gw - t, t, color, ALPHA_OPAQUE);
    let left_line = RenderRect::new(gx, gy, t, gh, color, ALPHA_OPAQUE);
    let right_line = RenderRect::new(gx + gw - t, gy + t, t, gh - t, color, ALPHA_OPAQUE);

    let r = CursorRects { rects: (Some(top_line), Some(left_line), Some(right_line), None), index: 0 };
    proof {
        assert(r.slots() =~= letter_n_batch(x as int, y as int, width as int, height as int,
        thickness as int));
    }
    r
}

/// The indicator glyph for the active selection mode, drawn over a filled
/// block cursor in the fixed indicator color.
fn block_selection_type_letters(
    selection: SelectionType,
    x: i64,
    y: i64,
    width: i64,
    height: i64,
    thickness: i64,
) -> (r: CursorRects)
    requires
        geometry_in_bounds(x as int, y as int, width as int, height as int, thickness as int),
    ensures
        r.slots() == block_selection_batch(
            selection,
            x as int,
            y as int,
            width as int,
            height as int,
            thickness as int,
        ),
        r.pos() == 0,
{
    match selection {
        SelectionType::Simple => selection_type_letter_n(x, y, width, height, thickness),
        SelectionType::Block => selection_type_letter_b(x, y, width, height, thickness),
        SelectionType::Semantic => selection_type_letter_s(x, y, width, height, thickness),
        SelectionType::Lines => selection_type_letter_l(x, y, width, height, thickness),
    }
}

/// Trait for conversion into the batch of rects.
pub trait IntoRects: Sized {
    /// The cursor snapshot that the conversion reads.
    spec fn cursor(self) -> RenderableCursor;

    /// Consume the cursor for a batch of rects.
    fn rects(self, size_info: &SizeInfo, thickness: ThicknessFraction, selection: &Option<
        Selection,
    >) -> (r: CursorRects)
        requires
            size_info.wf(),
            thickness.wf(),
        ensures
            r.slots() == cursor_batch(self.cursor(), *size_info, thickness, *selection),
            r.pos() == 0,
    ;
}

impl IntoRects for RenderableCursor {
    open spec fn cursor(self) -> RenderableCursor {
        self
    }

    fn rects(self, size_info: &SizeInfo, thickness: ThicknessFraction, selection: &Option<
        Selection,
    >) -> (r: CursorRects) {
        let t: i64 = cursor_thickness(thickness, size_info);
        proof {
            lemma_mul_upper_bound(
                self.column as int,
                0xFFFFint,
                size_info.cell_width as int,
                0xFFFF_FFFFint,
            );
            lemma_mul_upper_bound(
                self.line as int,
                0xFFFFint,
                size_info.cell_height as int,
                0xFFFF_FFFFint,
            );
        }
        let x: i64 = (self.column as i64) * (size_info.cell_width as i64) + (size_info.padding_x
            as i64);
        let y: i64 = (self.line as i64) * (size_info.cell_height as i64) + (size_info.padding_y
            as i64);

        let height: i64 = size_info.cell_height as i64;
        let width: i64 = if self.is_wide {
            2 * (size_info.cell_width as i64)
        } else {
            size_info.cell_width as i64
        };

        match self.shape {
            CursorShape::Beam => beam(x, y, height, t, self.color),
            CursorShape::Underline => underline(x, y, width, height, t, self.color),
            CursorShape::HollowBlock => hollow(x, y, width, height, t, self.color),
            CursorShape::Block => match selection {
                Some(selection) => block_selection_type_letters(
                    selection.ty,
                    x,
                    y,
                    width,
                    height,
                    t,
                ),
                None => block(),
            },
            CursorShape::Hidden => CursorRects::default(),
        }
    }
}

} // verus!
