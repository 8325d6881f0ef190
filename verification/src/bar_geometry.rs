//! Where a centred popup stands on the screen and which of its cells a click
//! lands on. The bar panel and the colleague picker are one kind of surface:
//! a frame, a title, a strip line, one row per selectable item below, and
//! (for the bar panel) a key hint on the last inner line, which no row
//! draws over.

use vstd::prelude::*;

use crate::bar_config_panel::BarPanelTab;
use crate::geometry::{rect_new, sat_add_u16, CellRect};

verus! {

/// `a - b`, held at zero.
pub open spec fn sat_sub(a: int, b: int) -> int {
    if a > b { a - b } else { 0 }
}

pub open spec fn min_int(a: int, b: int) -> int {
    if a < b { a } else { b }
}

pub open spec fn max_int(a: int, b: int) -> int {
    if a > b { a } else { b }
}

/// Whether a rectangle fits inside the `u16` plane, as every area the
/// terminal reports does.
pub open spec fn fits(r: CellRect) -> bool {
    r.x + r.width <= u16::MAX && r.y + r.height <= u16::MAX
}

/// The popup's width: `max_width` columns, less on a narrow screen, never
/// below 4.
pub open spec fn popup_width(area: CellRect, max_width: u16) -> int {
    max_int(min_int(max_width as int, sat_sub(area.width as int, 2)), 4)
}

/// The popup's height: the rows plus `chrome` lines of frame, title, strip
/// and hint, less on a short screen, never below 4.
pub open spec fn popup_height(area: CellRect, row_count: usize, chrome: u16) -> int {
    max_int(min_int(sat_add_u16((row_count % 65536) as int, chrome as int), sat_sub(area.height as int, 2)), 4)
}

/// A popup of at most `max_width` columns for `row_count` rows and `chrome`
/// lines of frame, centred over `area`; `None` on a screen too small for it.
pub open spec fn centered_popup_spec(area: CellRect, row_count: usize, max_width: u16, chrome: u16) -> Option<CellRect> {
    if area.width < 8 || area.height < 6 {
        None
    } else {
        let w = popup_width(area, max_width);
        let h = popup_height(area, row_count, chrome);
        Some(
            CellRect {
                x: (area.x + (area.width - w) / 2) as u16,
                y: (area.y + (area.height - h) / 2) as u16,
                width: w as u16,
                height: h as u16,
            },
        )
    }
}

/// A popup centred over `area`.
pub fn centered_popup(area: CellRect, row_count: usize, max_width: u16, chrome: u16) -> (r: Option<CellRect>)
    requires
        fits(area),
    ensures
        r == centered_popup_spec(area, row_count, max_width, chrome),
{
    let inner_w = area.width.saturating_sub(2);
    let w0: u16 = if max_width < inner_w { max_width } else { inner_w };
    let width: u16 = if w0 > 4 { w0 } else { 4 };
    let rows = (row_count % 65536) as u16;
    let tall = rows.saturating_add(chrome);
    let inner_h = area.height.saturating_sub(2);
    let h0: u16 = if tall < inner_h { tall } else { inner_h };
    let height: u16 = if h0 > 4 { h0 } else { 4 };
    if area.width < 8 || area.height < 6 {
        return None;
    }
    let x = area.x + (area.width - width) / 2;
    let y = area.y + (area.height - height) / 2;
    Some(rect_new(x, y, width, height))
}

/// The bar panel's popup: 56 columns at most and five lines of chrome
/// (frame, title, tabs, hint), one width for both faces so it does not
/// jump when Tab turns them.
pub open spec fn popup_rect_spec(area: CellRect, row_count: usize) -> Option<CellRect> {
    centered_popup_spec(area, row_count, 56, 5)
}

/// The bar panel's popup over the terminal area.
pub fn panel_popup_rect(area: CellRect, row_count: usize) -> (r: Option<CellRect>)
    requires
        fits(area),
    ensures
        r == popup_rect_spec(area, row_count),
{
    centered_popup(area, row_count, 56, 5)
}

/// The rectangle of every selectable row of a centred popup, top to bottom
/// from its fourth line: as many as there are rows and the popup has inner
/// lines for once its `chrome` is set aside.
pub open spec fn popup_row_areas_spec(area: CellRect, row_count: usize, max_width: u16, chrome: u16) -> Seq<CellRect> {
    match centered_popup_spec(area, row_count, max_width, chrome) {
        None => Seq::empty(),
        Some(p) => {
            let ix = p.x + 1;
            let iy = p.y + 3;
            let iw = sat_sub(p.width as int, 2);
            let ih = sat_sub(p.height as int, chrome as int);
            Seq::new(min_int(row_count as int, ih) as nat, |i: int| CellRect {
                x: ix as u16,
                y: (iy + i) as u16,
                width: iw as u16,
                height: 1,
            })
        },
    }
}

/// The rectangle of every selectable row of a centred popup.
pub fn popup_row_hit_areas(area: CellRect, row_count: usize, max_width: u16, chrome: u16) -> (r: Vec<CellRect>)
    requires
        fits(area),
        chrome >= 3,
    ensures
        r@ == popup_row_areas_spec(area, row_count, max_width, chrome),
{
    let popup = match centered_popup(area, row_count, max_width, chrome) {
        Some(p) => p,
        None => {
            return Vec::new();
        },
    };
    let inner = rect_new(popup.x + 1, popup.y + 3, popup.width.saturating_sub(2), popup.height.saturating_sub(chrome));
    let n: usize = if row_count < inner.height as usize { row_count } else { inner.height as usize };
    let mut out: Vec<CellRect> = Vec::new();
    let mut i: usize = 0;
    while i < n
        invariant
            n <= inner.height,
            inner.y + inner.height <= u16::MAX,
            inner.x + inner.width <= u16::MAX,
            i <= n,
            out@ == Seq::new(i as nat, |k: int| CellRect {
                x: inner.x,
                y: (inner.y + k) as u16,
                width: inner.width,
                height: 1,
            }),
        decreases n - i,
    {
        out.push(rect_new(inner.x, inner.y + i as u16, inner.width, 1));
        i = i + 1;
        assert(out@ =~= Seq::new(i as nat, |k: int| CellRect {
            x: inner.x,
            y: (inner.y + k) as u16,
            width: inner.width,
            height: 1,
        }));
    }
    assert(out@ =~= popup_row_areas_spec(area, row_count, max_width, chrome));
    out
}

/// The bar panel's selectable rows: the hint line below them is not one.
pub open spec fn row_areas_spec(area: CellRect, row_count: usize) -> Seq<CellRect> {
    popup_row_areas_spec(area, row_count, 56, 5)
}

/// The rectangle of every selectable row of the bar panel.
pub fn panel_row_hit_areas(area: CellRect, row_count: usize) -> (r: Vec<CellRect>)
    requires
        fits(area),
    ensures
        r@ == row_areas_spec(area, row_count),
{
    popup_row_hit_areas(area, row_count, 56, 5)
}

/// A width held so the rectangle ends at the edge of the `u16` plane.
pub open spec fn clamped_width(x: int, w: int) -> int {
    if w > u16::MAX - x { u16::MAX - x } else { w }
}

/// The two tab labels' rectangles on the strip line, in `Apps`,
/// `Configure` order: each label and a space on either side, one column
/// between them.
pub open spec fn tab_areas_spec(area: CellRect, row_count: usize) -> Seq<CellRect> {
    match popup_rect_spec(area, row_count) {
        None => Seq::empty(),
        Some(p) => {
            let x0 = p.x + 1;
            let y = p.y + 2;
            let x1 = sat_add_u16(x0, 7);
            seq![
                CellRect { x: x0 as u16, y: y as u16, width: clamped_width(x0, 6) as u16, height: 1 },
                CellRect { x: x1 as u16, y: y as u16, width: clamped_width(x1, 11) as u16, height: 1 },
            ]
        },
    }
}

/// The two tab labels' rectangles on the strip line.
pub fn panel_tab_hit_areas(area: CellRect, row_count: usize) -> (r: Vec<CellRect>)
    requires
        fits(area),
    ensures
        r@ == tab_areas_spec(area, row_count),
{
    let popup = match panel_popup_rect(area, row_count) {
        Some(p) => p,
        None => {
            return Vec::new();
        },
    };
    let mut x = popup.x + 1;
    let y = popup.y + 2;
    let mut out: Vec<CellRect> = Vec::new();
    proof {
        reveal_strlit("Apps");
        reveal_strlit("Configure");
    }
    let apps_width: u16 = (BarPanelTab::Apps.label().unicode_len() as u16) + 2;
    out.push(rect_new(x, y, apps_width, 1));
    x = x.saturating_add(apps_width.saturating_add(1));
    let configure_width: u16 = (BarPanelTab::Configure.label().unicode_len() as u16) + 2;
    out.push(rect_new(x, y, configure_width, 1));
    assert(out@ =~= tab_areas_spec(area, row_count));
    out
}

/// Whether a cell lies inside a rectangle.
pub open spec fn covers(r: CellRect, column: u16, row: u16) -> bool {
    column >= r.x && column < sat_add_u16(r.x as int, r.width as int) && row >= r.y && row < sat_add_u16(
        r.y as int,
        r.height as int,
    )
}

/// The first rectangle that covers a cell, or `-1`.
pub open spec fn first_covering(rects: Seq<CellRect>, column: u16, row: u16) -> int
    decreases rects.len(),
{
    if rects.len() == 0 {
        -1
    } else {
        let p = first_covering(rects.drop_last(), column, row);
        if p >= 0 {
            p
        } else if covers(rects.last(), column, row) {
            rects.len() - 1
        } else {
            -1
        }
    }
}

pub fn covering_index(rects: &Vec<CellRect>, column: u16, row: u16) -> (r: Option<usize>)
    ensures
        match r {
            Some(i) => i == first_covering(rects@, column, row) && i < rects@.len(),
            None => first_covering(rects@, column, row) == -1,
        },
{
    let mut i: usize = 0;
    while i < rects.len()
        invariant
            i <= rects@.len(),
            first_covering(rects@.subrange(0, i as int), column, row) == -1,
        decreases rects.len() - i,
    {
        let r = rects[i];
        let ghost pre = rects@.subrange(0, i as int);
        assert(rects@.subrange(0, i + 1).drop_last() =~= pre);
        if column >= r.x && column < r.x.saturating_add(r.width) && row >= r.y && row < r.y.saturating_add(
            r.height,
        ) {
            proof {
                lemma_first_covering_prefix(rects@, column, row, i as int + 1);
            }
            return Some(i);
        }
        i = i + 1;
    }
    assert(rects@.subrange(0, i as int) =~= rects@);
    None
}

proof fn lemma_first_covering_prefix(rects: Seq<CellRect>, column: u16, row: u16, k: int)
    requires
        0 <= k <= rects.len(),
        first_covering(rects.subrange(0, k), column, row) >= 0,
    ensures
        first_covering(rects, column, row) == first_covering(rects.subrange(0, k), column, row),
    decreases rects.len() - k,
{
    if k < rects.len() {
        assert(rects.subrange(0, k + 1).drop_last() =~= rects.subrange(0, k));
        lemma_first_covering_prefix(rects, column, row, k + 1);
    } else {
        assert(rects.subrange(0, k) =~= rects);
    }
}

/// The tab a click at `(column, row)` lands on.
pub fn panel_tab_at(area: CellRect, row_count: usize, column: u16, row: u16) -> (r: Option<BarPanelTab>)
    requires
        fits(area),
    ensures
        ({
            let i = first_covering(tab_areas_spec(area, row_count), column, row);
            r == (if i == 0 {
                Some(BarPanelTab::Apps)
            } else if i == 1 {
                Some(BarPanelTab::Configure)
            } else {
                None::<BarPanelTab>
            })
        }),
{
    let areas = panel_tab_hit_areas(area, row_count);
    match covering_index(&areas, column, row) {
        Some(i) => {
            if i == 0 {
                Some(BarPanelTab::Apps)
            } else {
                Some(BarPanelTab::Configure)
            }
        },
        None => None,
    }
}

/// The selectable row a click at `(column, row)` lands on.
pub fn panel_row_at(area: CellRect, row_count: usize, column: u16, row: u16) -> (r: Option<usize>)
    requires
        fits(area),
    ensures
        ({
            let i = first_covering(row_areas_spec(area, row_count), column, row);
            r == (if i >= 0 { Some(i as usize) } else { None::<usize> })
        }),
{
    let areas = panel_row_hit_areas(area, row_count);
    covering_index(&areas, column, row)
}

} // verus!
