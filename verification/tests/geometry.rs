//! End-to-end tests of the cursor-to-rect conversion: shape dispatch,
//! selection-mode glyphs, thickness rounding and the double-width rule.

use cursor_rects::color::Rgb;
use cursor_rects::cursor::{
    CursorRects, CursorShape, IntoRects, RenderableCursor, Selection, SelectionType, SizeInfo,
    ThicknessFraction,
};
use cursor_rects::rects::RenderRect;

fn green() -> Rgb {
    Rgb::new(0, 255, 0)
}

fn drain(mut batch: CursorRects) -> Vec<RenderRect> {
    let mut out = Vec::new();
    for _ in 0..4 {
        if let Some(rect) = batch.next() {
            out.push(rect);
        }
    }
    out
}

fn cursor(shape: CursorShape, column: u16, line: u16, is_wide: bool, color: Rgb) -> RenderableCursor {
    RenderableCursor { shape, line, column, is_wide, color }
}

fn rect(x: i64, y: i64, width: i64, height: i64, color: Rgb) -> RenderRect {
    RenderRect { x, y, width, height, color, alpha: 255 }
}

#[test]
fn beam_is_one_thin_bar_at_left_edge() {
    let size = SizeInfo::new(10, 20, 2, 3);
    let frac = ThicknessFraction::new(1, 10);
    let color = Rgb::new(200, 100, 50);
    let c = cursor(CursorShape::Beam, 5, 7, false, color);
    let rects = drain(c.rects(&size, frac, &None));
    assert_eq!(rects, vec![rect(52, 143, 1, 20, color)]);
}

#[test]
fn underline_is_flush_with_bottom_edge() {
    // Cell 10x20, thickness fraction 0.15: round(1.5) = 2 units thick.
    let size = SizeInfo::new(10, 20, 0, 0);
    let frac = ThicknessFraction::new(15, 100);
    let color = Rgb::new(255, 255, 255);
    let c = cursor(CursorShape::Underline, 3, 2, false, color);
    let rects = drain(c.rects(&size, frac, &None));
    assert_eq!(rects, vec![rect(30, 58, 10, 2, color)]);
}

#[test]
fn hollow_traces_the_cell_border() {
    let size = SizeInfo::new(10, 20, 0, 0);
    let frac = ThicknessFraction::new(15, 100);
    let color = Rgb::new(1, 2, 3);
    let c = cursor(CursorShape::HollowBlock, 3, 2, false, color);
    let rects = drain(c.rects(&size, frac, &None));
    let top = rect(30, 40, 10, 2, color);
    let bottom = rect(30, 58, 10, 2, color);
    let left = rect(30, 42, 2, 16, color);
    let right = rect(38, 42, 2, 16, color);
    assert_eq!(rects, vec![top, bottom, left, right]);
    // The vertical strokes span exactly the interior between the bars.
    assert_eq!(left.y, top.y + top.height);
    assert_eq!(left.y + left.height, bottom.y);
    assert_eq!(right.y, top.y + top.height);
    assert_eq!(right.y + right.height, bottom.y);
}

#[test]
fn block_without_selection_paints_nothing() {
    let size = SizeInfo::new(10, 20, 0, 0);
    let frac = ThicknessFraction::new(15, 100);
    let c = cursor(CursorShape::Block, 3, 2, false, Rgb::new(9, 9, 9));
    assert_eq!(drain(c.rects(&size, frac, &None)), vec![]);
}

#[test]
fn hidden_shape_paints_nothing() {
    let size = SizeInfo::new(10, 20, 0, 0);
    let frac = ThicknessFraction::new(15, 100);
    let sel = Some(Selection { ty: SelectionType::Lines });
    let c = cursor(CursorShape::Hidden, 3, 2, false, Rgb::new(9, 9, 9));
    assert_eq!(drain(c.rects(&size, frac, &sel)), vec![]);
}

#[test]
fn block_with_lines_selection_draws_letter_l() {
    // Same metrics as the underline scenario; glyph strokes are double
    // thickness (4) and inset one unit from the cell bounds.
    let size = SizeInfo::new(10, 20, 0, 0);
    let frac = ThicknessFraction::new(15, 100);
    let sel = Some(Selection { ty: SelectionType::Lines });
    let c = cursor(CursorShape::Block, 3, 2, false, Rgb::new(255, 0, 0));
    let rects = drain(c.rects(&size, frac, &sel));
    let bottom = rect(31, 55, 8, 4, green());
    let left = rect(31, 41, 4, 18, green());
    assert_eq!(rects, vec![bottom, left]);
}

#[test]
fn block_with_block_selection_draws_letter_b() {
    let size = SizeInfo::new(10, 20, 0, 0);
    let frac = ThicknessFraction::new(15, 100);
    let sel = Some(Selection { ty: SelectionType::Block });
    let c = cursor(CursorShape::Block, 0, 0, false, Rgb::new(255, 0, 0));
    let rects = drain(c.rects(&size, frac, &sel));
    let center = rect(1, 6, 8, 4, green());
    let bottom = rect(1, 15, 8, 4, green());
    let left = rect(1, 1, 4, 18, green());
    let right = rect(5, 10, 4, 9, green());
    assert_eq!(rects, vec![center, bottom, left, right]);
}

#[test]
fn block_with_semantic_selection_draws_letter_s() {
    let size = SizeInfo::new(10, 20, 0, 0);
    let frac = ThicknessFraction::new(15, 100);
    let sel = Some(Selection { ty: SelectionType::Semantic });
    let c = cursor(CursorShape::Block, 0, 0, false, Rgb::new(255, 0, 0));
    let rects = drain(c.rects(&size, frac, &sel));
    let top = rect(1, 1, 8, 4, green());
    let bottom = rect(1, 15, 8, 4, green());
    let left = rect(1, 5, 4, 5, green());
    let right = rect(5, 10, 4, 5, green());
    assert_eq!(rects, vec![top, bottom, left, right]);
}

#[test]
fn block_with_simple_selection_draws_letter_n() {
    let size = SizeInfo::new(10, 20, 0, 0);
    let frac = ThicknessFraction::new(15, 100);
    let sel = Some(Selection { ty: SelectionType::Simple });
    let c = cursor(CursorShape::Block, 0, 0, false, Rgb::new(255, 0, 0));
    let rects = drain(c.rects(&size, frac, &sel));
    let top = rect(1, 5, 4, 4, green());
    let left = rect(1, 1, 4, 18, green());
    let right = rect(5, 5, 4, 14, green());
    assert_eq!(rects, vec![top, left, right]);
}

#[test]
fn glyph_color_differs_from_cursor_color() {
    let size = SizeInfo::new(10, 20, 0, 0);
    let frac = ThicknessFraction::new(15, 100);
    let sel = Some(Selection { ty: SelectionType::Lines });
    let cursor_color = Rgb::new(255, 0, 0);
    let c = cursor(CursorShape::Block, 0, 0, false, cursor_color);
    for r in drain(c.rects(&size, frac, &sel)) {
        assert_eq!(r.color, green());
        assert_ne!(r.color, cursor_color);
    }
}

#[test]
fn thickness_never_degenerates_to_zero() {
    // round(10/1000) = 0, floored at one unit.
    let size = SizeInfo::new(10, 20, 0, 0);
    let frac = ThicknessFraction::new(1, 1000);
    let color = Rgb::new(7, 7, 7);
    let c = cursor(CursorShape::Beam, 0, 0, false, color);
    assert_eq!(drain(c.rects(&size, frac, &None)), vec![rect(0, 0, 1, 20, color)]);

    // Even a one-unit cell keeps a one-unit thickness.
    let tiny = SizeInfo::new(1, 1, 0, 0);
    let frac = ThicknessFraction::new(1, 1000000);
    let c = cursor(CursorShape::Beam, 0, 0, false, color);
    assert_eq!(drain(c.rects(&tiny, frac, &None)), vec![rect(0, 0, 1, 1, color)]);
}

#[test]
fn thickness_rounds_halves_up() {
    // 10 / 4 = 2.5, rounded to 3.
    let size = SizeInfo::new(10, 20, 0, 0);
    let frac = ThicknessFraction::new(1, 4);
    let color = Rgb::new(7, 7, 7);
    let c = cursor(CursorShape::Underline, 0, 0, false, color);
    assert_eq!(drain(c.rects(&size, frac, &None)), vec![rect(0, 17, 10, 3, color)]);
}

#[test]
fn wide_doubles_width_and_keeps_heights() {
    let size = SizeInfo::new(10, 20, 0, 0);
    let frac = ThicknessFraction::new(15, 100);
    let color = Rgb::new(4, 5, 6);
    let shapes = [
        CursorShape::Beam,
        CursorShape::Underline,
        CursorShape::HollowBlock,
        CursorShape::Block,
    ];
    let sel = Some(Selection { ty: SelectionType::Semantic });
    for shape in shapes {
        let narrow = drain(cursor(shape, 2, 1, false, color).rects(&size, frac, &sel));
        let wide = drain(cursor(shape, 2, 1, true, color).rects(&size, frac, &sel));
        assert_eq!(narrow.len(), wide.len());
        for (n, w) in narrow.iter().zip(wide.iter()) {
            assert_eq!(n.height, w.height);
            assert_eq!(n.y, w.y);
        }
    }
    // The underline's painted width itself doubles.
    let narrow = drain(cursor(CursorShape::Underline, 0, 0, false, color).rects(&size, frac, &None));
    let wide = drain(cursor(CursorShape::Underline, 0, 0, true, color).rects(&size, frac, &None));
    assert_eq!(narrow[0].width, 10);
    assert_eq!(wide[0].width, 20);
}

#[test]
fn beam_ignores_the_wide_flag() {
    let size = SizeInfo::new(10, 20, 0, 0);
    let frac = ThicknessFraction::new(15, 100);
    let color = Rgb::new(4, 5, 6);
    let narrow = drain(cursor(CursorShape::Beam, 2, 1, false, color).rects(&size, frac, &None));
    let wide = drain(cursor(CursorShape::Beam, 2, 1, true, color).rects(&size, frac, &None));
    assert_eq!(narrow, wide);
}

#[test]
fn degenerate_metrics_stay_well_formed() {
    // A cell far wider than tall: the underline overshoots the cell top
    // but its extents stay non-negative.
    let size = SizeInfo::new(100, 5, 0, 0);
    let frac = ThicknessFraction::new(1, 1);
    let color = Rgb::new(1, 1, 1);
    let c = cursor(CursorShape::Underline, 0, 0, false, color);
    assert_eq!(drain(c.rects(&size, frac, &None)), vec![rect(0, -95, 100, 100, color)]);

    // A one-unit cell leaves no room for a glyph: everything degenerates
    // to zero area, nothing panics.
    let tiny = SizeInfo::new(1, 1, 0, 0);
    let frac = ThicknessFraction::new(1, 2);
    let sel = Some(Selection { ty: SelectionType::Lines });
    let c = cursor(CursorShape::Block, 0, 0, false, color);
    for r in drain(c.rects(&tiny, frac, &sel)) {
        assert!(r.width >= 0 && r.height >= 0);
        assert_eq!(r.width * r.height, 0);
    }
}
