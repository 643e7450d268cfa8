//! Coordinate-addressed drawing. Each function returns the bytes of one
//! write, which the caller sends to the terminal and then flushes once.
use vstd::prelude::*;

use crate::escape::{
    cursor_move_bytes, line_drawing_off_bytes, line_drawing_on_bytes, push_decimal, ESC,
};
use crate::graphics::Drawable;

verus! {

/// A terminal position: column `x` and row `y`, counted from 1.
#[derive(Clone, Copy, Debug, PartialEq, Eq, Structural)]
pub struct Coord {
    pub x: i16,
    pub y: i16,
}

/// The visible window of a console, as inclusive column and row bounds.
#[derive(Clone, Copy, Debug, PartialEq, Eq, Structural)]
pub struct SmallRect {
    pub left: i16,
    pub top: i16,
    pub right: i16,
    pub bottom: i16,
}

/// The number of positions from `lo` to `hi`, both included, or 0 when that
/// number is not an `i16`.
pub open spec fn extent(lo: i16, hi: i16) -> i16 {
    let n = hi - lo + 1;
    if i16::MIN <= n <= i16::MAX {
        n as i16
    } else {
        0
    }
}

/// The size of the visible window, as columns in `x` and rows in `y`.
/// A failed query (`None`) gives a zero size, as size is only a hint.
pub open spec fn window_size_of(window: Option<SmallRect>) -> Coord {
    match window {
        Some(w) => Coord { x: extent(w.left, w.right), y: extent(w.top, w.bottom) },
        None => Coord { x: 0, y: 0 },
    }
}

fn span(lo: i16, hi: i16) -> (r: i16)
    ensures
        r == extent(lo, hi),
{
    let n: i32 = hi as i32 - lo as i32 + 1;
    if n >= i16::MIN as i32 && n <= i16::MAX as i32 {
        n as i16
    } else {
        0
    }
}

/// Computes the window size from the window bounds that a console query
/// reported, or `None` when the query failed.
pub fn window_size(window: Option<SmallRect>) -> (r: Coord)
    ensures
        r == window_size_of(window),
{
    match window {
        Some(w) => Coord { x: span(w.left, w.right), y: span(w.top, w.bottom) },
        None => Coord { x: 0, y: 0 },
    }
}

/// The bytes that draw `item` where the cursor stands.
pub fn draw<D: Drawable>(item: &D) -> (r: Vec<u8>)
    ensures
        r@ == item.rendered(),
{
    let mut out: Vec<u8> = Vec::new();
    item.draw(&mut out);
    proof {
        assert(out@ =~= item.rendered());
    }
    out
}

/// The bytes that move the cursor to `coord` and draw `item` there: the
/// cursor movement immediately followed by the item's own bytes.
pub fn draw_at<D: Drawable>(coord: Coord, item: &D) -> (r: Vec<u8>)
    ensures
        r@ == cursor_move_bytes(coord.x as int, coord.y as int) + item.rendered(),
{
    let mut out = move_cursor(coord);
    item.draw(&mut out);
    out
}

/// The bytes that move the cursor to `coord`.
pub fn move_cursor(coord: Coord) -> (r: Vec<u8>)
    ensures
        r@ == cursor_move_bytes(coord.x as int, coord.y as int),
{
    let mut out: Vec<u8> = Vec::new();
    out.push(ESC);
    out.push(91);
    push_decimal(&mut out, coord.y);
    out.push(59);
    push_decimal(&mut out, coord.x);
    out.push(72);
    proof {
        assert(out@ =~= cursor_move_bytes(coord.x as int, coord.y as int));
    }
    out
}

/// The bytes that switch the terminal to its line-drawing character set.
pub fn enable_line_drawing() -> (r: Vec<u8>)
    ensures
        r@ == line_drawing_on_bytes(),
{
    let mut out: Vec<u8> = Vec::new();
    out.push(ESC);
    out.push(40);
    out.push(48);
    proof {
        assert(out@ =~= line_drawing_on_bytes());
    }
    out
}

/// The bytes that switch the terminal back to ASCII.
pub fn disable_line_drawing() -> (r: Vec<u8>)
    ensures
        r@ == line_drawing_off_bytes(),
{
    let mut out: Vec<u8> = Vec::new();
    out.push(ESC);
    out.push(40);
    out.push(66);
    proof {
        assert(out@ =~= line_drawing_off_bytes());
    }
    out
}

} // verus!
