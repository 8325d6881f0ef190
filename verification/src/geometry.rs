use vstd::prelude::*;

verus! {

/// A cell rectangle, held as the four plain values the layout logic reads.
#[derive(Debug, Clone, Copy, PartialEq, Eq)]
pub struct CellRect {
    pub x: u16,
    pub y: u16,
    pub width: u16,
    pub height: u16,
}

/// Saturating addition on `u16`, as a spec value.
pub open spec fn sat_add_u16(a: int, b: int) -> int {
    if a + b > u16::MAX { u16::MAX as int } else { a + b }
}

/// `ratatui::layout::Rect::new`: the width and height are clamped so the
/// rectangle never reaches past `u16::MAX` on either axis.
#[verifier::external_body]
pub(crate) fn rect_new(x: u16, y: u16, width: u16, height: u16) -> (r: CellRect)
    ensures
        r.x == x,
        r.y == y,
        r.width == (if width > u16::MAX - x { (u16::MAX - x) as u16 } else { width }),
        r.height == (if height > u16::MAX - y { (u16::MAX - y) as u16 } else { height }),
{
    let r = ratatui::layout::Rect::new(x, y, width, height);
    CellRect { x: r.x, y: r.y, width: r.width, height: r.height }
}

} // verus!
