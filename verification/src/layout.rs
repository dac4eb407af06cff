//! Container layout strategies: span (stack), paragraph flow and grid.
//!
//! A strategy takes the container's content dimension and a list of child
//! size estimates and produces, for every child, the pixel position of that
//! child's own anchor measured from the container content box's bottom-left
//! corner, together with the total content size.

use vstd::prelude::*;

use crate::anchor::Anchor;
use crate::fixed::{
    fx_add, fx_add_s, fx_max, fx_mul, fx_mul_s, fx_nmul, fx_nmul_s, fx_sub, fx_sub_s, FX_HALF,
    FX_SCALE,
};
use crate::scaling::Size;
use crate::vec2::Vec2;

verus! {

/// The order children are laid out in along the primary axis.
#[derive(Clone, Copy, Debug, PartialEq, Eq, Structural)]
pub enum FlexDir {
    LeftToRight,
    RightToLeft,
    TopToBottom,
    BottomToTop,
}

/// Cross-axis alignment of a span's children.
#[derive(Clone, Copy, Debug, PartialEq, Eq, Structural)]
pub enum Alignment {
    Center,
    Top,
    Bottom,
    Left,
    Right,
}

/// Per-child layout control flags.
#[derive(Clone, Copy, Debug, PartialEq, Eq, Structural)]
pub enum LayoutControl {
    /// Participate in layout normally.
    Normal,
    /// An explicit line break: a zero-size separator in paragraph flow.
    Linebreak,
    /// Excluded from placement; keeps its own anchor against the
    /// container's resolved rectangle.
    IgnoreLayout,
}

impl Default for LayoutControl {
    fn default() -> (r: Self)
        ensures
            r is Normal,
    {
        LayoutControl::Normal
    }
}

/// One child as seen by a layout strategy.
#[derive(Clone, Copy, Debug)]
pub struct LayoutItem {
    /// The child's entity handle.
    pub entity: usize,
    /// The child's anchor preference.
    pub anchor: Anchor,
    /// The child's estimated size in pixels.
    pub dimension: Vec2,
    /// The child's control flags.
    pub control: LayoutControl,
}

/// The context a layout strategy runs in.
#[derive(Clone, Copy, Debug)]
pub struct LayoutInfo {
    /// The container's content dimension in pixels.
    pub dimension: Vec2,
    /// The container's resolved font size.
    pub em: i64,
    /// The root font size.
    pub rem: i64,
    /// The gap between neighboring children, in pixels per axis.
    pub margin: Vec2,
}

/// The result of a placement: one anchor position per placed child, in
/// pixels from the content box's bottom-left corner, and the total content
/// size.
#[derive(Clone, Debug)]
pub struct LayoutOutput {
    pub entity_anchors: Vec<(usize, Vec2)>,
    pub dimension: Vec2,
}

/// A pluggable layout strategy.
#[derive(Clone, Debug)]
pub enum Layout {
    /// Children in a row or column along `direction`, separated by the
    /// margin, aligned on the cross axis by `alignment`.
    Span { direction: FlexDir, alignment: Alignment },
    /// Text-like flow: children left to right, wrapping into new lines at
    /// the container width, line break markers honored.
    Paragraph,
    /// Fixed or context-relative column tracks, a fixed row height, and
    /// children filled into cells in row-major order.
    Grid { columns: Vec<Size>, row: Size },
}

/// A child's anchor as a 0..1 fraction of its own box (0 = left/bottom).
pub open spec fn anchor01_spec(a: Anchor) -> Vec2 {
    Vec2 {
        x: fx_add_s(a.frac_spec().x as int, FX_HALF as int) as i64,
        y: fx_add_s(a.frac_spec().y as int, FX_HALF as int) as i64,
    }
}

/// Whether the primary axis of a direction is horizontal.
pub open spec fn horizontal_spec(dir: FlexDir) -> bool {
    dir is LeftToRight || dir is RightToLeft
}

/// Whether a direction runs against its axis's positive (rightward or
/// upward) orientation.
pub open spec fn mirrored_spec(dir: FlexDir) -> bool {
    dir is RightToLeft || dir is TopToBottom
}

/// The primary-axis extent of an item.
pub open spec fn pdim_spec(item: LayoutItem, horiz: bool) -> int {
    if horiz {
        item.dimension.x as int
    } else {
        item.dimension.y as int
    }
}

/// The cross-axis extent of an item.
pub open spec fn cdim_spec(item: LayoutItem, horiz: bool) -> int {
    if horiz {
        item.dimension.y as int
    } else {
        item.dimension.x as int
    }
}

/// The primary-axis start of the `i`-th item when laid left-to-right:
/// the saturating sum of all earlier extents and gaps.
pub open spec fn span_cursor_spec(items: Seq<LayoutItem>, m: int, horiz: bool, i: int) -> int
    decreases i,
{
    if i <= 0 {
        0
    } else {
        fx_add_s(
            fx_add_s(span_cursor_spec(items, m, horiz, i - 1), pdim_spec(items[i - 1], horiz)),
            m,
        )
    }
}

/// The total primary extent of a span: the sum of the extents with one gap
/// between each pair of neighbors.
pub open spec fn span_total_spec(items: Seq<LayoutItem>, m: int, horiz: bool) -> int {
    if items.len() == 0 {
        0
    } else {
        fx_sub_s(span_cursor_spec(items, m, horiz, items.len() as int), m)
    }
}

/// The largest cross extent among the first `i` items.
pub open spec fn span_cross_spec(items: Seq<LayoutItem>, horiz: bool, i: int) -> int
    decreases i,
{
    if i <= 0 {
        0
    } else {
        vstd::math::max(span_cross_spec(items, horiz, i - 1), cdim_spec(items[i - 1], horiz))
    }
}

/// The cross-axis offset of a child's box under an alignment: 0 leading,
/// centered, or flush trailing.
pub open spec fn cross_offset_spec(align: Alignment, horiz: bool, total_cross: int, cd: int) -> int {
    if horiz {
        match align {
            Alignment::Bottom => 0,
            Alignment::Top => fx_sub_s(total_cross, cd),
            _ => fx_mul_s(fx_sub_s(total_cross, cd), FX_HALF as int),
        }
    } else {
        match align {
            Alignment::Left => 0,
            Alignment::Right => fx_sub_s(total_cross, cd),
            _ => fx_mul_s(fx_sub_s(total_cross, cd), FX_HALF as int),
        }
    }
}

/// The anchor position of the `i`-th child of a span, from the content
/// box's bottom-left corner.
pub open spec fn span_pos_spec(
    items: Seq<LayoutItem>,
    m: int,
    dir: FlexDir,
    align: Alignment,
    i: int,
) -> Vec2 {
    let horiz = horizontal_spec(dir);
    let a01 = anchor01_spec(items[i].anchor);
    let pd = pdim_spec(items[i], horiz);
    let cd = cdim_spec(items[i], horiz);
    let pa01 = if horiz {
        a01.x as int
    } else {
        a01.y as int
    };
    let ca01 = if horiz {
        a01.y as int
    } else {
        a01.x as int
    };
    let start = if mirrored_spec(dir) {
        fx_sub_s(
            fx_sub_s(span_total_spec(items, m, horiz), span_cursor_spec(items, m, horiz, i)),
            pd,
        )
    } else {
        span_cursor_spec(items, m, horiz, i)
    };
    let p = fx_add_s(start, fx_mul_s(pa01, pd));
    let c = fx_add_s(
        cross_offset_spec(align, horiz, span_cross_spec(items, horiz, items.len() as int), cd),
        fx_mul_s(ca01, cd),
    );
    if horiz {
        Vec2 { x: p as i64, y: c as i64 }
    } else {
        Vec2 { x: c as i64, y: p as i64 }
    }
}

/// The total content size of a span.
pub open spec fn span_size_spec(items: Seq<LayoutItem>, m: int, dir: FlexDir) -> Vec2 {
    let horiz = horizontal_spec(dir);
    let p = span_total_spec(items, m, horiz);
    let c = span_cross_spec(items, horiz, items.len() as int);
    if horiz {
        Vec2 { x: p as i64, y: c as i64 }
    } else {
        Vec2 { x: c as i64, y: p as i64 }
    }
}

/// The paragraph flow state after the first `i` items: the next free x
/// position, the top of the current line measured downward from the content
/// top, and the height of the current line so far.
pub open spec fn para_state_spec(
    items: Seq<LayoutItem>,
    width: int,
    m: Vec2,
    i: int,
) -> (int, int, int)
    decreases i,
{
    if i <= 0 {
        (0, 0, 0)
    } else {
        para_step_spec(para_state_spec(items, width, m, i - 1), items[i - 1], width, m).0
    }
}

/// One step of the paragraph flow: the new state and the placed item's
/// anchor position measured from the content top-left (y growing down).
pub open spec fn para_step_spec(
    state: (int, int, int),
    item: LayoutItem,
    width: int,
    m: Vec2,
) -> ((int, int, int), Vec2) {
    let (x, y, h) = state;
    if item.control is Linebreak {
        (
            (
                0,
                fx_add_s(
                    fx_add_s(y, vstd::math::max(h, item.dimension.y as int)),
                    m.y as int,
                ),
                0,
            ),
            Vec2 { x: x as i64, y: y as i64 },
        )
    } else {
        let wrap = x != 0 && fx_add_s(x, item.dimension.x as int) > width;
        let x0 = if wrap {
            0
        } else {
            x
        };
        let y0 = if wrap {
            fx_add_s(fx_add_s(y, h), m.y as int)
        } else {
            y
        };
        let h0 = if wrap {
            0
        } else {
            h
        };
        let a01 = anchor01_spec(item.anchor);
        let pos = Vec2 {
            x: fx_add_s(x0, fx_mul_s(a01.x as int, item.dimension.x as int)) as i64,
            y: fx_add_s(
                y0,
                fx_mul_s(fx_sub_s(FX_SCALE as int, a01.y as int), item.dimension.y as int),
            ) as i64,
        };
        (
            (
                fx_add_s(fx_add_s(x0, item.dimension.x as int), m.x as int),
                y0,
                vstd::math::max(h0, item.dimension.y as int),
            ),
            pos,
        )
    }
}

/// The top-left-relative anchor position of the `i`-th item of a paragraph.
pub open spec fn para_pos_td_spec(items: Seq<LayoutItem>, width: int, m: Vec2, i: int) -> Vec2 {
    para_step_spec(para_state_spec(items, width, m, i), items[i], width, m).1
}

/// The total content height of a paragraph: the bottom of the last line.
pub open spec fn para_height_spec(items: Seq<LayoutItem>, width: int, m: Vec2) -> int {
    let s = para_state_spec(items, width, m, items.len() as int);
    fx_add_s(s.1, s.2)
}

/// The bottom-left-relative anchor position of the `i`-th item of a
/// paragraph.
pub open spec fn para_pos_spec(items: Seq<LayoutItem>, width: int, m: Vec2, i: int) -> Vec2 {
    let td = para_pos_td_spec(items, width, m, i);
    Vec2 { x: td.x, y: fx_sub_s(para_height_spec(items, width, m), td.y as int) as i64 }
}

/// The resolved width of the `j`-th grid column.
pub open spec fn grid_col_spec(cols: Seq<Size>, info: LayoutInfo, j: int) -> int {
    cols[j].as_pixels_spec(info.dimension.x as int, info.em as int, info.rem as int)
}

/// The x position where the `j`-th grid column starts.
pub open spec fn grid_col_x_spec(cols: Seq<Size>, info: LayoutInfo, j: int) -> int
    decreases j,
{
    if j <= 0 {
        0
    } else {
        fx_add_s(
            fx_add_s(grid_col_x_spec(cols, info, j - 1), grid_col_spec(cols, info, j - 1)),
            info.margin.x as int,
        )
    }
}

/// The resolved height of every grid row.
pub open spec fn grid_row_h_spec(row: Size, info: LayoutInfo) -> int {
    row.as_pixels_spec(info.dimension.y as int, info.em as int, info.rem as int)
}

/// The number of rows `n` items occupy over `ncols` columns.
pub open spec fn grid_rows_spec(n: int, ncols: int) -> int {
    if n <= 0 {
        0
    } else {
        (n - 1) / ncols + 1
    }
}

/// The total content size of a grid holding `n` items.
pub open spec fn grid_size_spec(cols: Seq<Size>, row: Size, info: LayoutInfo, n: int) -> Vec2 {
    let w = fx_sub_s(grid_col_x_spec(cols, info, cols.len() as int), info.margin.x as int);
    let nrows = grid_rows_spec(n, cols.len() as int);
    let h = if nrows <= 0 {
        0
    } else {
        fx_sub_s(
            fx_nmul_s(nrows, fx_add_s(grid_row_h_spec(row, info), info.margin.y as int)),
            info.margin.y as int,
        )
    };
    Vec2 { x: w as i64, y: h as i64 }
}

/// The bottom-left-relative anchor position of the `k`-th item of a grid.
pub open spec fn grid_pos_spec(
    items: Seq<LayoutItem>,
    cols: Seq<Size>,
    row: Size,
    info: LayoutInfo,
    k: int,
) -> Vec2 {
    let ncols = cols.len() as int;
    let j = k % ncols;
    let i = k / ncols;
    let a01 = anchor01_spec(items[k].anchor);
    let cw = grid_col_spec(cols, info, j);
    let rh = grid_row_h_spec(row, info);
    let x = fx_add_s(grid_col_x_spec(cols, info, j), fx_mul_s(a01.x as int, cw));
    let y_td = fx_add_s(
        fx_nmul_s(i, fx_add_s(rh, info.margin.y as int)),
        fx_mul_s(fx_sub_s(FX_SCALE as int, a01.y as int), rh),
    );
    let total_h = grid_size_spec(cols, row, info, items.len() as int).y as int;
    Vec2 { x: x as i64, y: fx_sub_s(total_h, y_td) as i64 }
}

impl Layout {
    /// Whether this placement is well-configured for the given items; a
    /// grid without columns is a user misconfiguration and is skipped.
    pub open spec fn well_configured_spec(self) -> bool {
        match self {
            Layout::Grid { columns, .. } => columns@.len() > 0,
            _ => true,
        }
    }

    /// Whether this placement is well-configured.
    pub fn well_configured(&self) -> (r: bool)
        ensures
            r == self.well_configured_spec(),
    {
        match self {
            Layout::Grid { columns, .. } => columns.len() > 0,
            _ => true,
        }
    }

    /// Run the strategy.
    ///
    /// On a misconfigured grid (no columns) nothing is placed and the
    /// reported size is zero, leaving all previously computed state
    /// untouched. Otherwise every item receives the anchor position its
    /// strategy's placement function gives it, and the reported size is the
    /// strategy's total content size.
    pub fn place(&self, info: &LayoutInfo, items: Vec<LayoutItem>) -> (r: LayoutOutput)
        ensures
            self.well_configured_spec() ==> {
                &&& r.entity_anchors@.len() == items@.len()
                &&& forall|k: int|
                    0 <= k < items@.len() ==> #[trigger] r.entity_anchors@[k] == (
                        items@[k].entity,
                        self.pos_spec(*info, items@, k),
                    )
                &&& r.dimension == self.size_spec(*info, items@)
            },
            !self.well_configured_spec() ==> {
                &&& r.entity_anchors@.len() == 0
                &&& r.dimension == (Vec2 { x: 0, y: 0 })
            },
    {
        match self {
            Layout::Span { direction, alignment } => place_span(info, items, *direction, *alignment),
            Layout::Paragraph => place_paragraph(info, items),
            Layout::Grid { columns, row } => place_grid(info, items, columns, *row),
        }
    }

    /// The anchor position this strategy assigns to the `k`-th item.
    pub open spec fn pos_spec(self, info: LayoutInfo, items: Seq<LayoutItem>, k: int) -> Vec2 {
        match self {
            Layout::Span { direction, alignment } => span_pos_spec(
                items,
                (if horizontal_spec(direction) {
                    info.margin.x as int
                } else {
                    info.margin.y as int
                }),
                direction,
                alignment,
                k,
            ),
            Layout::Paragraph => para_pos_spec(items, info.dimension.x as int, info.margin, k),
            Layout::Grid { columns, row } => grid_pos_spec(items, columns@, row, info, k),
        }
    }

    /// The total content size this strategy reports for the items.
    pub open spec fn size_spec(self, info: LayoutInfo, items: Seq<LayoutItem>) -> Vec2 {
        match self {
            Layout::Span { direction, .. } => span_size_spec(
                items,
                (if horizontal_spec(direction) {
                    info.margin.x as int
                } else {
                    info.margin.y as int
                }),
                direction,
            ),
            Layout::Paragraph => Vec2 {
                x: info.dimension.x,
                y: para_height_spec(items, info.dimension.x as int, info.margin) as i64,
            },
            Layout::Grid { columns, row } => grid_size_spec(columns@, row, info, items.len() as int),
        }
    }
}

/// Lay items sequentially along the primary axis.
#[verifier::loop_isolation(false)]
fn place_span(info: &LayoutInfo, items: Vec<LayoutItem>, dir: FlexDir, align: Alignment) -> (r:
    LayoutOutput)
    ensures
        r.entity_anchors@.len() == items@.len(),
        forall|k: int|
            0 <= k < items@.len() ==> #[trigger] r.entity_anchors@[k] == (
                items@[k].entity,
                span_pos_spec(
                    items@,
                    (if horizontal_spec(dir) {
                        info.margin.x as int
                    } else {
                        info.margin.y as int
                    }),
                    dir,
                    align,
                    k,
                ),
            ),
        r.dimension == span_size_spec(
            items@,
            (if horizontal_spec(dir) {
                info.margin.x as int
            } else {
                info.margin.y as int
            }),
            dir,
        ),
{
    let horiz = matches!(dir, FlexDir::LeftToRight | FlexDir::RightToLeft);
    let mirrored = matches!(dir, FlexDir::RightToLeft | FlexDir::TopToBottom);
    let m: i64 = if horiz {
        info.margin.x
    } else {
        info.margin.y
    };
    let ghost mi = m as int;
    let n = items.len();

    let mut cursor: i64 = 0;
    let mut cross: i64 = 0;
    let mut i: usize = 0;
    while i < n
        invariant
            0 <= i <= n,
            n == items@.len(),
            horiz == horizontal_spec(dir),
            cursor as int == span_cursor_spec(items@, mi, horiz, i as int),
            cross as int == span_cross_spec(items@, horiz, i as int),
        decreases n - i,
    {
        let pd: i64 = if horiz {
            items[i].dimension.x
        } else {
            items[i].dimension.y
        };
        let cd: i64 = if horiz {
            items[i].dimension.y
        } else {
            items[i].dimension.x
        };
        cursor = fx_add(fx_add(cursor, pd), m);
        cross = fx_max(cross, cd);
        i = i + 1;
    }
    let total: i64 = if n == 0 {
        0
    } else {
        fx_sub(cursor, m)
    };
    assert(total as int == span_total_spec(items@, mi, horiz));

    let mut out: Vec<(usize, Vec2)> = Vec::new();
    let mut cursor2: i64 = 0;
    let mut k: usize = 0;
    while k < n
        invariant
            0 <= k <= n,
            n == items@.len(),
            horiz == horizontal_spec(dir),
            mirrored == mirrored_spec(dir),
            total as int == span_total_spec(items@, mi, horiz),
            cross as int == span_cross_spec(items@, horiz, n as int),
            cursor2 as int == span_cursor_spec(items@, mi, horiz, k as int),
            out@.len() == k,
            forall|q: int|
                0 <= q < k ==> #[trigger] out@[q] == (
                    items@[q].entity,
                    span_pos_spec(items@, mi, dir, align, q),
                ),
        decreases n - k,
    {
        let item = items[k];
        let a01x = fx_add(item.anchor.as_frac().x, FX_HALF);
        let a01y = fx_add(item.anchor.as_frac().y, FX_HALF);
        let pd: i64 = if horiz {
            item.dimension.x
        } else {
            item.dimension.y
        };
        let cd: i64 = if horiz {
            item.dimension.y
        } else {
            item.dimension.x
        };
        let pa01: i64 = if horiz {
            a01x
        } else {
            a01y
        };
        let ca01: i64 = if horiz {
            a01y
        } else {
            a01x
        };
        let start: i64 = if mirrored {
            fx_sub(fx_sub(total, cursor2), pd)
        } else {
            cursor2
        };
        let p = fx_add(start, fx_mul(pa01, pd));
        let off: i64 = if horiz {
            match align {
                Alignment::Bottom => 0,
                Alignment::Top => fx_sub(cross, cd),
                _ => fx_mul(fx_sub(cross, cd), FX_HALF),
            }
        } else {
            match align {
                Alignment::Left => 0,
                Alignment::Right => fx_sub(cross, cd),
                _ => fx_mul(fx_sub(cross, cd), FX_HALF),
            }
        };
        let c = fx_add(off, fx_mul(ca01, cd));
        let pos = if horiz {
            Vec2 { x: p, y: c }
        } else {
            Vec2 { x: c, y: p }
        };
        assert(pos == span_pos_spec(items@, mi, dir, align, k as int));
        out.push((item.entity, pos));
        cursor2 = fx_add(fx_add(cursor2, pd), m);
        k = k + 1;
    }
    let dimension = if horiz {
        Vec2 { x: total, y: cross }
    } else {
        Vec2 { x: cross, y: total }
    };
    LayoutOutput { entity_anchors: out, dimension }
}

/// Lay items in wrapping text flow.
#[verifier::loop_isolation(false)]
fn place_paragraph(info: &LayoutInfo, items: Vec<LayoutItem>) -> (r: LayoutOutput)
    ensures
        r.entity_anchors@.len() == items@.len(),
        forall|k: int|
            0 <= k < items@.len() ==> #[trigger] r.entity_anchors@[k] == (
                items@[k].entity,
                para_pos_spec(items@, info.dimension.x as int, info.margin, k),
            ),
        r.dimension == (Vec2 {
            x: info.dimension.x,
            y: para_height_spec(items@, info.dimension.x as int, info.margin) as i64,
        }),
{
    let width = info.dimension.x;
    let m = info.margin;
    let n = items.len();

    let mut x: i64 = 0;
    let mut y: i64 = 0;
    let mut h: i64 = 0;
    let mut i: usize = 0;
    while i < n
        invariant
            0 <= i <= n,
            n == items@.len(),
            (x as int, y as int, h as int) == para_state_spec(
                items@,
                width as int,
                m,
                i as int,
            ),
        decreases n - i,
    {
        let item = items[i];
        if matches!(item.control, LayoutControl::Linebreak) {
            y = fx_add(fx_add(y, fx_max(h, item.dimension.y)), m.y);
            x = 0;
            h = 0;
        } else {
            let wrap = x != 0 && fx_add(x, item.dimension.x) > width;
            if wrap {
                y = fx_add(fx_add(y, h), m.y);
                x = 0;
                h = 0;
            }
            x = fx_add(fx_add(x, item.dimension.x), m.x);
            h = fx_max(h, item.dimension.y);
        }
        i = i + 1;
    }
    let total_h = fx_add(y, h);
    assert(total_h as int == para_height_spec(items@, width as int, m));

    let mut out: Vec<(usize, Vec2)> = Vec::new();
    let mut x2: i64 = 0;
    let mut y2: i64 = 0;
    let mut h2: i64 = 0;
    let mut k: usize = 0;
    while k < n
        invariant
            0 <= k <= n,
            n == items@.len(),
            total_h as int == para_height_spec(items@, width as int, m),
            (x2 as int, y2 as int, h2 as int) == para_state_spec(
                items@,
                width as int,
                m,
                k as int,
            ),
            out@.len() == k,
            forall|q: int|
                0 <= q < k ==> #[trigger] out@[q] == (
                    items@[q].entity,
                    para_pos_spec(items@, width as int, m, q),
                ),
        decreases n - k,
    {
        let item = items[k];
        if matches!(item.control, LayoutControl::Linebreak) {
            let pos_td = Vec2 { x: x2, y: y2 };
            out.push((item.entity, Vec2 { x: pos_td.x, y: fx_sub(total_h, pos_td.y) }));
            y2 = fx_add(fx_add(y2, fx_max(h2, item.dimension.y)), m.y);
            x2 = 0;
            h2 = 0;
        } else {
            let wrap = x2 != 0 && fx_add(x2, item.dimension.x) > width;
            if wrap {
                y2 = fx_add(fx_add(y2, h2), m.y);
                x2 = 0;
                h2 = 0;
            }
            let a01x = fx_add(item.anchor.as_frac().x, FX_HALF);
            let a01y = fx_add(item.anchor.as_frac().y, FX_HALF);
            let pos_td = Vec2 {
                x: fx_add(x2, fx_mul(a01x, item.dimension.x)),
                y: fx_add(y2, fx_mul(fx_sub(FX_SCALE, a01y), item.dimension.y)),
            };
            out.push((item.entity, Vec2 { x: pos_td.x, y: fx_sub(total_h, pos_td.y) }));
            x2 = fx_add(fx_add(x2, item.dimension.x), m.x);
            h2 = fx_max(h2, item.dimension.y);
        }
        k = k + 1;
    }
    LayoutOutput {
        entity_anchors: out,
        dimension: Vec2 { x: width, y: total_h },
    }
}

/// Lay items into grid cells in row-major order.
#[verifier::loop_isolation(false)]
fn place_grid(info: &LayoutInfo, items: Vec<LayoutItem>, columns: &Vec<Size>, row: Size) -> (r:
    LayoutOutput)
    ensures
        columns@.len() > 0 ==> {
            &&& r.entity_anchors@.len() == items@.len()
            &&& forall|k: int|
                0 <= k < items@.len() ==> #[trigger] r.entity_anchors@[k] == (
                    items@[k].entity,
                    grid_pos_spec(items@, columns@, row, *info, k),
                )
            &&& r.dimension == grid_size_spec(columns@, row, *info, items@.len() as int)
        },
        columns@.len() == 0 ==> {
            &&& r.entity_anchors@.len() == 0
            &&& r.dimension == (Vec2 { x: 0, y: 0 })
        },
{
    let ncols = columns.len();
    if ncols == 0 {
        return LayoutOutput { entity_anchors: Vec::new(), dimension: Vec2 { x: 0, y: 0 } };
    }
    let rh = row.as_pixels(info.dimension.y, info.em, info.rem);
    let n = items.len();

    // Column starts.
    let mut col_x: Vec<i64> = Vec::new();
    let mut acc: i64 = 0;
    let mut j: usize = 0;
    while j < ncols
        invariant
            0 <= j <= ncols,
            ncols == columns@.len(),
            acc as int == grid_col_x_spec(columns@, *info, j as int),
            col_x@.len() == j,
            forall|q: int|
                0 <= q < j ==> #[trigger] col_x@[q] as int == grid_col_x_spec(columns@, *info, q),
        decreases ncols - j,
    {
        col_x.push(acc);
        let cw = columns[j].as_pixels(info.dimension.x, info.em, info.rem);
        acc = fx_add(fx_add(acc, cw), info.margin.x);
        j = j + 1;
    }
    let total_w = fx_sub(acc, info.margin.x);
    assert(total_w as int == fx_sub_s(
        grid_col_x_spec(columns@, *info, ncols as int),
        info.margin.x as int,
    ));

    let nrows: usize = if n == 0 {
        0
    } else {
        (n - 1) / ncols + 1
    };
    let total_h: i64 = if nrows == 0 {
        0
    } else {
        fx_sub(fx_nmul(nrows, fx_add(rh, info.margin.y)), info.margin.y)
    };
    assert(total_h as int == grid_size_spec(columns@, row, *info, n as int).y as int);

    let mut out: Vec<(usize, Vec2)> = Vec::new();
    let mut k: usize = 0;
    while k < n
        invariant
            0 <= k <= n,
            n == items@.len(),
            ncols == columns@.len(),
            ncols > 0,
            rh as int == grid_row_h_spec(row, *info),
            total_h as int == grid_size_spec(columns@, row, *info, n as int).y as int,
            col_x@.len() == ncols,
            forall|q: int|
                0 <= q < ncols ==> #[trigger] col_x@[q] as int == grid_col_x_spec(
                    columns@,
                    *info,
                    q,
                ),
            out@.len() == k,
            forall|q: int|
                0 <= q < k ==> #[trigger] out@[q] == (
                    items@[q].entity,
                    grid_pos_spec(items@, columns@, row, *info, q),
                ),
        decreases n - k,
    {
        let item = items[k];
        let j2: usize = k % ncols;
        let i2: usize = k / ncols;
        let a01x = fx_add(item.anchor.as_frac().x, FX_HALF);
        let a01y = fx_add(item.anchor.as_frac().y, FX_HALF);
        let cw = columns[j2].as_pixels(info.dimension.x, info.em, info.rem);
        let x = fx_add(col_x[j2], fx_mul(a01x, cw));
        let y_td = fx_add(
            fx_nmul(i2, fx_add(rh, info.margin.y)),
            fx_mul(fx_sub(FX_SCALE, a01y), rh),
        );
        out.push((item.entity, Vec2 { x, y: fx_sub(total_h, y_td) }));
        k = k + 1;
    }
    LayoutOutput {
        entity_anchors: out,
        dimension: Vec2 { x: total_w, y: total_h },
    }
}

/// The exact (non-saturating) sum of the primary extents of the first `i`
/// items.
pub open spec fn span_exact_sum(items: Seq<LayoutItem>, horiz: bool, i: int) -> int
    decreases i,
{
    if i <= 0 {
        0
    } else {
        span_exact_sum(items, horiz, i - 1) + pdim_spec(items[i - 1], horiz)
    }
}

/// Container size invariant of the span strategy: when no extent is
/// negative and the exact total stays inside the saturation range, the
/// reported primary size is exactly the sum of the children's primary
/// extents plus one margin gap between each pair of neighbors.
pub proof fn lemma_span_total_size(items: Seq<LayoutItem>, m: int, horiz: bool)
    requires
        items.len() > 0,
        0 <= m,
        forall|j: int| 0 <= j < items.len() ==> 0 <= #[trigger] pdim_spec(items[j], horiz),
        span_exact_sum(items, horiz, items.len() as int) + items.len() * m <= crate::fixed::FX_MAX
            as int,
    ensures
        span_total_spec(items, m, horiz) == span_exact_sum(items, horiz, items.len() as int) + (
        items.len() - 1) * m,
{
    let n = items.len() as int;
    lemma_span_cursor_exact(items, m, horiz, n);
    lemma_span_exact_sum_monotonic(items, horiz, 0, n);
    assert(0 <= (n - 1) * m && n * m - m == (n - 1) * m) by (nonlinear_arith)
        requires
            0 <= m,
            1 <= n,
    ;
}

/// The cursor is the exact running sum while everything stays in range.
proof fn lemma_span_cursor_exact(items: Seq<LayoutItem>, m: int, horiz: bool, i: int)
    requires
        0 <= m,
        0 <= i <= items.len(),
        forall|j: int| 0 <= j < items.len() ==> 0 <= #[trigger] pdim_spec(items[j], horiz),
        span_exact_sum(items, horiz, items.len() as int) + items.len() * m <= crate::fixed::FX_MAX
            as int,
    ensures
        span_cursor_spec(items, m, horiz, i) == span_exact_sum(items, horiz, i) + i * m,
    decreases i,
{
    if i > 0 {
        let n = items.len() as int;
        lemma_span_cursor_exact(items, m, horiz, i - 1);
        lemma_span_exact_sum_monotonic(items, horiz, 0, i - 1);
        lemma_span_exact_sum_monotonic(items, horiz, i, n);
        assert((i - 1) * m + m == i * m) by (nonlinear_arith);
        assert(0 <= (i - 1) * m && (i - 1) * m <= i * m && i * m <= n * m) by (nonlinear_arith)
            requires
                0 <= m,
                1 <= i <= n,
        ;
        let c = span_cursor_spec(items, m, horiz, i - 1);
        let pd = pdim_spec(items[i - 1], horiz);
        assert(0 <= pd);
        let e1 = span_exact_sum(items, horiz, i);
        assert(e1 == span_exact_sum(items, horiz, i - 1) + pd);
        assert(c == span_exact_sum(items, horiz, i - 1) + (i - 1) * m);
        assert(0 <= e1 + (i - 1) * m);
        assert(e1 + (i - 1) * m <= span_exact_sum(items, horiz, n) + n * m);
        assert(fx_add_s(c, pd) == e1 + (i - 1) * m);
        assert(fx_add_s(e1 + (i - 1) * m, m) == e1 + i * m);
        assert(span_cursor_spec(items, m, horiz, i) == fx_add_s(fx_add_s(c, pd), m));
        assert(span_cursor_spec(items, m, horiz, i) == e1 + i * m);
    } else {
        assert(span_cursor_spec(items, m, horiz, i) == 0);
        assert(span_exact_sum(items, horiz, i) == 0);
        assert(i * m == 0) by (nonlinear_arith)
            requires
                i == 0,
        ;
    }
}

/// The exact sum grows with the index when extents are nonnegative.
proof fn lemma_span_exact_sum_monotonic(items: Seq<LayoutItem>, horiz: bool, i: int, j: int)
    requires
        0 <= i <= j <= items.len(),
        forall|q: int| 0 <= q < items.len() ==> 0 <= #[trigger] pdim_spec(items[q], horiz),
    ensures
        span_exact_sum(items, horiz, i) <= span_exact_sum(items, horiz, j),
    decreases j,
{
    if i < j {
        lemma_span_exact_sum_monotonic(items, horiz, i, j - 1);
    }
}

} // verus!
