//! Properties of the cursor-to-rect conversion, stated over the batch
//! specification that [`crate::cursor::IntoRects::rects`] is proved to
//! return.

use vstd::arithmetic::mul::{lemma_mul_nonnegative, lemma_mul_upper_bound};
use vstd::prelude::*;

use crate::cursor::{
    cursor_batch, effective_width, empty_batch, lemma_rounded_fraction_bounds, origin_x, origin_y,
    thickness_spec, RenderableCursor, Selection, SizeInfo, ThicknessFraction,
};
use crate::rects::RenderRect;

verus! {

/// The effective thickness is at least one unit however small the
/// thickness fraction or the cell width are, and never exceeds the cell
/// width.
pub proof fn lemma_thickness_bounds(frac: ThicknessFraction, size: SizeInfo)
    requires
        frac.wf(),
        size.wf(),
    ensures
        1 <= thickness_spec(frac, size) <= size.cell_width,
{
    lemma_rounded_fraction_bounds(frac.numer as int, frac.denom as int, size.cell_width as int);
}

/// The geometry every shape is derived from stays inside the bounds that
/// rule out 64-bit overflow: it comes from 16-bit grid positions and
/// 32-bit metrics.
pub proof fn lemma_cursor_geometry_in_bounds(
    cursor: RenderableCursor,
    size: SizeInfo,
    frac: ThicknessFraction,
)
    requires
        size.wf(),
        frac.wf(),
    ensures
        crate::cursor::geometry_in_bounds(
            origin_x(cursor.column, size),
            origin_y(cursor.line, size),
            effective_width(size, cursor.is_wide),
            size.cell_height as int,
            thickness_spec(frac, size),
        ),
{
    lemma_mul_nonnegative(cursor.column as int, size.cell_width as int);
    lemma_mul_nonnegative(cursor.line as int, size.cell_height as int);
    lemma_mul_upper_bound(cursor.column as int, 0xFFFFint, size.cell_width as int, 0xFFFF_FFFFint);
    lemma_mul_upper_bound(cursor.line as int, 0xFFFFint, size.cell_height as int, 0xFFFF_FFFFint);
    lemma_thickness_bounds(frac, size);
}

/// A shape with no rect rendering of its own paints nothing, whatever the
/// selection is.
pub proof fn lemma_hidden_shape_empty(
    cursor: RenderableCursor,
    size: SizeInfo,
    frac: ThicknessFraction,
    selection: Option<Selection>,
)
    requires
        cursor.shape is Hidden,
    ensures
        cursor_batch(cursor, size, frac, selection) == empty_batch(),
{
}

/// A filled block cursor with no active selection paints nothing.
pub proof fn lemma_block_without_selection_empty(
    cursor: RenderableCursor,
    size: SizeInfo,
    frac: ThicknessFraction,
)
    requires
        cursor.shape is Block,
    ensures
        cursor_batch(cursor, size, frac, None) == empty_batch(),
{
}

/// Beam yields exactly one rectangle: `thickness` wide, the full cell
/// height, at the cell's left edge.
pub proof fn lemma_beam_geometry(
    cursor: RenderableCursor,
    size: SizeInfo,
    frac: ThicknessFraction,
    selection: Option<Selection>,
)
    requires
        cursor.shape is Beam,
        size.wf(),
        frac.wf(),
    ensures
        ({
            let batch = cursor_batch(cursor, size, frac, selection);
            let t = thickness_spec(frac, size);
            &&& batch[0] matches Some(rect)
            &&& rect.x == origin_x(cursor.column, size)
            &&& rect.y == origin_y(cursor.line, size)
            &&& rect.width == t
            &&& rect.height == size.cell_height
            &&& rect.is_visible()
            &&& batch[1] is None && batch[2] is None && batch[3] is None
        }),
{
    lemma_cursor_geometry_in_bounds(cursor, size, frac);
}

/// Underline yields exactly one rectangle: the full effective width,
/// `thickness` tall, flush with the bottom of the cell.
pub proof fn lemma_underline_geometry(
    cursor: RenderableCursor,
    size: SizeInfo,
    frac: ThicknessFraction,
    selection: Option<Selection>,
)
    requires
        cursor.shape is Underline,
        size.wf(),
        frac.wf(),
    ensures
        ({
            let batch = cursor_batch(cursor, size, frac, selection);
            let t = thickness_spec(frac, size);
            &&& batch[0] matches Some(rect)
            &&& rect.x == origin_x(cursor.column, size)
            &&& rect.width == effective_width(size, cursor.is_wide)
            &&& rect.height == t
            &&& rect.y + rect.height == origin_y(cursor.line, size) + size.cell_height
            &&& rect.is_visible()
            &&& batch[1] is None && batch[2] is None && batch[3] is None
        }),
{
    lemma_cursor_geometry_in_bounds(cursor, size, frac);
}

/// Hollow block yields exactly four visible rectangles that trace the
/// cell border with uniform `thickness`: full-width top and bottom bars
/// and left and right strokes spanning exactly the interior height
/// between them, so the vertical strokes never overlap the horizontal
/// bars. Cells no taller than two thicknesses leave no interior and are
/// excluded.
pub proof fn lemma_hollow_geometry(
    cursor: RenderableCursor,
    size: SizeInfo,
    frac: ThicknessFraction,
    selection: Option<Selection>,
)
    requires
        cursor.shape is HollowBlock,
        size.wf(),
        frac.wf(),
        2 * thickness_spec(frac, size) < size.cell_height,
    ensures
        ({
            let batch = cursor_batch(cursor, size, frac, selection);
            let x = origin_x(cursor.column, size);
            let y = origin_y(cursor.line, size);
            let w = effective_width(size, cursor.is_wide);
            let h = size.cell_height as int;
            let t = thickness_spec(frac, size);
            &&& batch[0] matches Some(top)
            &&& batch[1] matches Some(bottom)
            &&& batch[2] matches Some(left)
            &&& batch[3] matches Some(right)
            &&& top.x == x && top.y == y && top.width == w && top.height == t
            &&& bottom.x == x && bottom.y == y + h - t && bottom.width == w && bottom.height == t
            &&& left.x == x && left.y == y + t && left.width == t && left.height == h - 2 * t
            &&& right.x == x + w - t && right.y == y + t && right.width == t && right.height == h
                - 2 * t
            &&& top.is_visible() && bottom.is_visible() && left.is_visible() && right.is_visible()
            &&& left.y >= top.y + top.height && left.y + left.height <= bottom.y
            &&& right.y >= top.y + top.height && right.y + right.height <= bottom.y
        }),
{
    lemma_cursor_geometry_in_bounds(cursor, size, frac);
}

/// During a block selection, a filled block cursor draws the glyph "b"
/// with exactly four visible rectangles. Cells narrower than three units
/// leave no interior for the glyph and cells shorter than four give the
/// half-height right stroke no room; both are excluded.
pub proof fn lemma_block_selection_four_rects(
    cursor: RenderableCursor,
    size: SizeInfo,
    frac: ThicknessFraction,
    selection: Selection,
)
    requires
        cursor.shape is Block,
        selection.ty is Block,
        size.wf(),
        frac.wf(),
        size.cell_width >= 3,
        size.cell_height >= 4,
    ensures
        ({
            let batch = cursor_batch(cursor, size, frac, Some(selection));
            &&& batch[0] matches Some(r0) && r0.is_visible()
            &&& batch[1] matches Some(r1) && r1.is_visible()
            &&& batch[2] matches Some(r2) && r2.is_visible()
            &&& batch[3] matches Some(r3) && r3.is_visible()
        }),
{
    lemma_cursor_geometry_in_bounds(cursor, size, frac);
}

/// During a whole-line selection, a filled block cursor draws the glyph
/// "L" with exactly two visible rectangles, the remaining two slots
/// empty. Cells narrower or shorter than three units leave no interior
/// for the glyph and are excluded.
pub proof fn lemma_lines_selection_two_rects(
    cursor: RenderableCursor,
    size: SizeInfo,
    frac: ThicknessFraction,
    selection: Selection,
)
    requires
        cursor.shape is Block,
        selection.ty is Lines,
        size.wf(),
        frac.wf(),
        size.cell_width >= 3,
        size.cell_height >= 3,
    ensures
        ({
            let batch = cursor_batch(cursor, size, frac, Some(selection));
            &&& batch[0] matches Some(r0) && r0.is_visible()
            &&& batch[1] matches Some(r1) && r1.is_visible()
            &&& batch[2] is None
            &&& batch[3] is None
        }),
{
    lemma_cursor_geometry_in_bounds(cursor, size, frac);
}

/// Marking the cursor double-width exactly doubles the effective width
/// its geometry is computed from.
pub proof fn lemma_wide_doubles_effective_width(size: SizeInfo)
    ensures
        effective_width(size, true) == 2 * effective_width(size, false),
{
}

/// Two slots that agree on occupancy, vertical position and height.
pub open spec fn slots_agree_vertically(a: Option<RenderRect>, b: Option<RenderRect>) -> bool {
    &&& a is Some <==> b is Some
    &&& a matches Some(ra) ==> b matches Some(rb) && ra.height == rb.height && ra.y == rb.y
}

/// Marking the cursor double-width never changes the vertical extent of
/// anything that is painted: slot for slot, the batch of the wide cursor
/// has the same occupancy, the same heights and the same vertical
/// positions as the batch of the narrow one.
pub proof fn lemma_wide_never_changes_heights(
    cursor: RenderableCursor,
    size: SizeInfo,
    frac: ThicknessFraction,
    selection: Option<Selection>,
)
    requires
        size.wf(),
        frac.wf(),
    ensures
        ({
            let narrow = cursor_batch(
                RenderableCursor { is_wide: false, ..cursor },
                size,
                frac,
                selection,
            );
            let wide = cursor_batch(
                RenderableCursor { is_wide: true, ..cursor },
                size,
                frac,
                selection,
            );
            forall|i: int|
                0 <= i < 4 ==> #[trigger] slots_agree_vertically(narrow[i], wide[i])
        }),
{
    let narrow = cursor_batch(RenderableCursor { is_wide: false, ..cursor }, size, frac, selection);
    let wide = cursor_batch(RenderableCursor { is_wide: true, ..cursor }, size, frac, selection);
    assert(slots_agree_vertically(narrow[0], wide[0]));
    assert(slots_agree_vertically(narrow[1], wide[1]));
    assert(slots_agree_vertically(narrow[2], wide[2]));
    assert(slots_agree_vertically(narrow[3], wide[3]));
    assert forall|i: int| 0 <= i < 4 implies #[trigger] slots_agree_vertically(
        narrow[i],
        wide[i],
    ) by {
        assert(i == 0 || i == 1 || i == 2 || i == 3);
    }
}

/// A slot that is either empty or holds a well-formed rectangle.
pub open spec fn slot_wf(s: Option<RenderRect>) -> bool {
    s matches Some(rect) ==> rect.wf()
}

/// Whatever the inputs, the batch holds exactly four slots and every
/// rectangle in it is well formed: extents are never negative.
pub proof fn lemma_batch_well_formed(
    cursor: RenderableCursor,
    size: SizeInfo,
    frac: ThicknessFraction,
    selection: Option<Selection>,
)
    requires
        size.wf(),
        frac.wf(),
    ensures
        cursor_batch(cursor, size, frac, selection).len() == 4,
        forall|i: int|
            0 <= i < 4 ==> slot_wf(#[trigger] cursor_batch(cursor, size, frac, selection)[i]),
{
    lemma_cursor_geometry_in_bounds(cursor, size, frac);
    let batch = cursor_batch(cursor, size, frac, selection);
    assert(slot_wf(batch[0]));
    assert(slot_wf(batch[1]));
    assert(slot_wf(batch[2]));
    assert(slot_wf(batch[3]));
    assert forall|i: int| 0 <= i < 4 implies slot_wf(
        #[trigger] cursor_batch(cursor, size, frac, selection)[i],
    ) by {
        assert(i == 0 || i == 1 || i == 2 || i == 3);
    }
}

} // verus!
