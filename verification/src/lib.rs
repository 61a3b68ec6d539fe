//! Cursor-to-rectangle conversion for a terminal renderer.
//!
//! A cursor snapshot (shape, grid position, double-width flag, color)
//! together with the cell layout metrics and the active selection mode is
//! turned into a bounded batch of at most four axis-aligned rectangles that
//! a rasterizer can paint. All geometry is computed over exact integer
//! units; the thickness fraction is an exact rational.

pub mod color;
pub mod cursor;
pub mod props;
pub mod rects;
