//! Size-relative scrolling.
//!
//! A scrolling region is an entity holding exactly one centered buffer
//! child whose own children are the scrolled content. A wheel delta moves
//! the buffer's offset, clamped so the content cannot be scrolled out of
//! view; when the clamp swallows the whole delta the event is piped on,
//! and the scrolled position can be reported as a 0 to 1 factor.

use vstd::prelude::*;

use crate::anchor::Anchor;
use crate::fixed::{fx_div_s, FX_MAX, FX_NEG_MAX, FX_NEG_SCALE, FX_SCALE};
use crate::scaling::Size2;
use crate::vec2::{vadd_s, vmax_s, vmin_s, vmul_s, vsub_s, Vec2};

verus! {

/// Which directions an entity may be scrolled in.
#[derive(Clone, Copy, Debug, PartialEq, Eq, Structural)]
pub struct Scrolling {
    pub pos_x: bool,
    pub neg_x: bool,
    pub pos_y: bool,
    pub neg_y: bool,
}

impl Scrolling {
    pub fn new(pos_x: bool, neg_x: bool, pos_y: bool, neg_y: bool) -> (r: Scrolling)
        ensures
            r == (Scrolling { pos_x, neg_x, pos_y, neg_y }),
    {
        Scrolling { pos_x, neg_x, pos_y, neg_y }
    }

    /// Horizontal scrolling in both directions.
    pub fn x() -> (r: Scrolling)
        ensures
            r == (Scrolling { pos_x: true, neg_x: true, pos_y: false, neg_y: false }),
    {
        Scrolling { pos_x: true, neg_x: true, pos_y: false, neg_y: false }
    }

    /// Vertical scrolling in both directions.
    pub fn y() -> (r: Scrolling)
        ensures
            r == (Scrolling { pos_x: false, neg_x: false, pos_y: true, neg_y: true }),
    {
        Scrolling { pos_x: false, neg_x: false, pos_y: true, neg_y: true }
    }

    /// Scrolling in every direction.
    pub fn both() -> (r: Scrolling)
        ensures
            r == (Scrolling { pos_x: true, neg_x: true, pos_y: true, neg_y: true }),
    {
        Scrolling { pos_x: true, neg_x: true, pos_y: true, neg_y: true }
    }

    /// Whether any horizontal scrolling is allowed.
    pub fn x_scroll(&self) -> (r: bool)
        ensures
            r == (self.neg_x || self.pos_x),
    {
        self.neg_x || self.pos_x
    }

    /// Whether any vertical scrolling is allowed.
    pub fn y_scroll(&self) -> (r: bool)
        ensures
            r == (self.neg_y || self.pos_y),
    {
        self.neg_y || self.pos_y
    }
}

impl Default for Scrolling {
    fn default() -> (r: Self)
        ensures
            r == (Scrolling { pos_x: true, neg_x: true, pos_y: true, neg_y: true }),
    {
        Scrolling::both()
    }
}

/// The direction and magnitude mouse wheel deltas are scaled by.
#[derive(Clone, Copy, Debug, PartialEq, Eq, Structural)]
pub struct ScrollDirection(pub Vec2);

impl ScrollDirection {
    /// Normal scrolling.
    pub fn unit() -> (r: ScrollDirection)
        ensures
            r.0 == (Vec2 { x: FX_SCALE, y: FX_SCALE }),
    {
        ScrollDirection(Vec2 { x: FX_SCALE, y: FX_SCALE })
    }

    pub fn new(dir: Vec2) -> (r: ScrollDirection)
        ensures
            r.0 == dir,
    {
        ScrollDirection(dir)
    }

    /// A direction with its vertical axis flipped, as with a trackpad.
    pub fn inverted(dir: Vec2) -> (r: ScrollDirection)
        ensures
            r.0 == vmul_s(dir, Vec2 { x: FX_SCALE, y: FX_NEG_SCALE }),
    {
        ScrollDirection(dir.mul(Vec2 { x: FX_SCALE, y: FX_NEG_SCALE }))
    }

    pub fn get(&self) -> (r: Vec2)
        ensures
            r == self.0,
    {
        self.0
    }

    pub fn set(&mut self, value: Vec2)
        ensures
            final(self).0 == value,
    {
        self.0 = value;
    }
}

/// One piece of scrolled content, as the buffer child's children appear
/// to the scroll clamp: their declared geometry against the scroll
/// region's dimension.
#[derive(Clone, Copy, Debug)]
pub struct ScrollContent {
    /// The content's resolved pixel size.
    pub size: Vec2,
    /// The content's resolved font size.
    pub em: i64,
    /// The content's own anchor.
    pub anchor: Anchor,
    /// The point on the buffer the content attaches to.
    pub parent_anchor: Anchor,
    /// The content's context-relative offset.
    pub offset: Size2,
}

/// What one scroll step decides.
#[derive(Clone, Copy, Debug, PartialEq, Eq, Structural)]
pub enum ScrollOutcome {
    /// Store `offset` as the buffer's new raw offset. `pipe` asks the
    /// caller to forward the delta (the clamp swallowed it whole);
    /// `fraction` is the 0 to 1 position factor along the single scroll
    /// axis, when exactly one axis scrolls.
    Scrolled { offset: Vec2, pipe: bool, fraction: Option<i64> },
    /// No scroll axis is enabled; nothing to do.
    NoAxis,
    /// The region does not hold exactly one buffer child; the step is
    /// skipped and no state is touched.
    WrongChildCount,
    /// The buffer child is not centered; the step is skipped and no
    /// state is touched.
    BufferNotCentered,
}

/// The wheel delta folded onto the enabled axes and scaled by the
/// direction.
pub open spec fn delta_scroll_spec(scroll: Scrolling, delta: Vec2, direction: Vec2) -> Vec2 {
    let folded = if (scroll.neg_x || scroll.pos_x) && (scroll.neg_y || scroll.pos_y) {
        delta
    } else if scroll.neg_x || scroll.pos_x {
        Vec2 { x: crate::fixed::fx_add_s(delta.x as int, delta.y as int) as i64, y: 0 }
    } else {
        Vec2 { x: 0, y: crate::fixed::fx_add_s(delta.x as int, delta.y as int) as i64 }
    };
    vmul_s(folded, direction)
}

/// The bounding box of the first `i` contents, in buffer-local pixels:
/// the running component-wise minimum of their bottom-left corners and
/// maximum of their top-right corners, folded from zero.
pub open spec fn content_bounds_spec(
    contents: Seq<ScrollContent>,
    size: Vec2,
    rem: int,
    i: int,
) -> (Vec2, Vec2)
    decreases i,
{
    if i <= 0 {
        (Vec2 { x: 0, y: 0 }, Vec2 { x: 0, y: 0 })
    } else {
        let (lo, hi) = content_bounds_spec(contents, size, rem, i - 1);
        let c = contents[i - 1];
        let anc = vmul_s(size, c.parent_anchor.frac_spec());
        let off = c.offset.as_pixels_spec(size, c.em as int, rem);
        let center = vsub_s(vadd_s(anc, off), vmul_s(c.size, c.anchor.frac_spec()));
        let bl = vadd_s(center, vmul_s(c.size, Anchor::BottomLeft.frac_spec()));
        let tr = vadd_s(center, vmul_s(c.size, Anchor::TopRight.frac_spec()));
        (vmin_s(lo, bl), vmax_s(hi, tr))
    }
}

/// Everything one scroll step decides, from the inputs alone.
pub open spec fn scrolling_spec(
    scroll: Scrolling,
    direction: Vec2,
    size: Vec2,
    buffer_count: int,
    buffer_anchor: Anchor,
    buffer_offset: Vec2,
    contents: Seq<ScrollContent>,
    delta: Vec2,
    rem: int,
) -> ScrollOutcome {
    if !(scroll.neg_x || scroll.pos_x) && !(scroll.neg_y || scroll.pos_y) {
        ScrollOutcome::NoAxis
    } else if buffer_count != 1 {
        ScrollOutcome::WrongChildCount
    } else if !(buffer_anchor is Center) {
        ScrollOutcome::BufferNotCentered
    } else {
        let ds = delta_scroll_spec(scroll, delta, direction);
        let offset = vadd_s(buffer_offset, ds);
        let size_min = vmul_s(size, Anchor::BottomLeft.frac_spec());
        let size_max = vmul_s(size, Anchor::TopRight.frac_spec());
        let (lo, hi) = content_bounds_spec(contents, size, rem, contents.len() as int);
        let clamp_min = vmin_s(
            vmin_s(vsub_s(size_min, lo), vsub_s(size_max, hi)),
            Vec2 { x: 0, y: 0 },
        );
        let clamp_max = vmax_s(
            vmax_s(vsub_s(size_max, hi), vsub_s(size_min, lo)),
            Vec2 { x: 0, y: 0 },
        );
        let constraint_min = Vec2 {
            x: if scroll.neg_x {
                FX_NEG_MAX
            } else {
                0
            },
            y: if scroll.neg_y {
                FX_NEG_MAX
            } else {
                0
            },
        };
        let constraint_max = Vec2 {
            x: if scroll.pos_x {
                FX_MAX
            } else {
                0
            },
            y: if scroll.pos_y {
                FX_MAX
            } else {
                0
            },
        };
        let clamped = vmin_s(vmax_s(offset, clamp_min), clamp_max);
        let bounded = vmin_s(vmax_s(clamped, constraint_min), constraint_max);
        let pipe = bounded == buffer_offset;
        let span = vsub_s(clamp_max, clamp_min);
        let frac = vdiv01_spec(vsub_s(bounded, clamp_min), span);
        let fraction = if (scroll.neg_x || scroll.pos_x) && !(scroll.neg_y || scroll.pos_y) {
            Some(frac.x)
        } else if !(scroll.neg_x || scroll.pos_x) && (scroll.neg_y || scroll.pos_y) {
            Some(frac.y)
        } else {
            None
        };
        ScrollOutcome::Scrolled { offset: bounded, pipe, fraction }
    }
}

/// A component-wise quotient clamped into 0 to 1.
pub open spec fn vdiv01_spec(num: Vec2, den: Vec2) -> Vec2 {
    Vec2 {
        x: clamp01_spec(fx_div_s(num.x as int, den.x as int)) as i64,
        y: clamp01_spec(fx_div_s(num.y as int, den.y as int)) as i64,
    }
}

/// `v` clamped into the unit interval.
pub open spec fn clamp01_spec(v: int) -> int {
    if v < 0 {
        0
    } else if v > FX_SCALE as int {
        FX_SCALE as int
    } else {
        v
    }
}

/// `v` clamped into the unit interval.
fn clamp01(v: i64) -> (r: i64)
    ensures
        r as int == clamp01_spec(v as int),
{
    if v < 0 {
        0
    } else if v > FX_SCALE {
        FX_SCALE
    } else {
        v
    }
}

/// One scroll step for one scroll region.
///
/// `size` is the region's dimension; `buffer_count` is how many children
/// the region holds and `buffer_anchor`/`buffer_offset` describe the
/// single buffer child; `contents` are the buffer's children. The wheel
/// `delta` is folded onto the enabled axes, scaled by `direction`, added
/// to the buffer offset and clamped so the content stays in reach. A
/// misconfigured region (no axis, wrong child count, uncentered buffer)
/// is reported and skipped with no state touched.
#[verifier::loop_isolation(false)]
#[verifier::rlimit(80)]
#[verifier::spinoff_prover]
pub fn scrolling_system(
    scroll: &Scrolling,
    direction: Vec2,
    size: Vec2,
    buffer_count: usize,
    buffer_anchor: Anchor,
    buffer_offset: Vec2,
    contents: &Vec<ScrollContent>,
    delta: Vec2,
    rem: i64,
) -> (r: ScrollOutcome)
    ensures
        r == scrolling_spec(
            *scroll,
            direction,
            size,
            buffer_count as int,
            buffer_anchor,
            buffer_offset,
            contents@,
            delta,
            rem as int,
        ),
{
    let xs = scroll.x_scroll();
    let ys = scroll.y_scroll();
    if !xs && !ys {
        return ScrollOutcome::NoAxis;
    }
    if buffer_count != 1 {
        return ScrollOutcome::WrongChildCount;
    }
    if !matches!(buffer_anchor, Anchor::Center) {
        return ScrollOutcome::BufferNotCentered;
    }
    let folded = if xs && ys {
        delta
    } else if xs {
        Vec2 { x: crate::fixed::fx_add(delta.x, delta.y), y: 0 }
    } else {
        Vec2 { x: 0, y: crate::fixed::fx_add(delta.x, delta.y) }
    };
    let ds = folded.mul(direction);
    let offset = buffer_offset.add(ds);
    let size_min = size.mul(Anchor::BottomLeft.as_frac());
    let size_max = size.mul(Anchor::TopRight.as_frac());

    let n = contents.len();
    let mut lo = Vec2::zero();
    let mut hi = Vec2::zero();
    let mut i: usize = 0;
    while i < n
        invariant
            0 <= i <= n,
            (lo, hi) == content_bounds_spec(contents@, size, rem as int, i as int),
        decreases n - i,
    {
        let c = contents[i];
        let anc = size.mul(c.parent_anchor.as_frac());
        let off = c.offset.as_pixels(size, c.em, rem);
        let center = anc.add(off).sub(c.size.mul(c.anchor.as_frac()));
        let bl = center.add(c.size.mul(Anchor::BottomLeft.as_frac()));
        let tr = center.add(c.size.mul(Anchor::TopRight.as_frac()));
        lo = lo.min(bl);
        hi = hi.max(tr);
        i = i + 1;
    }

    let clamp_min = size_min.sub(lo).min(size_max.sub(hi)).min(Vec2::zero());
    let clamp_max = size_max.sub(hi).max(size_min.sub(lo)).max(Vec2::zero());
    let constraint_min = Vec2 {
        x: if scroll.neg_x {
            FX_NEG_MAX
        } else {
            0
        },
        y: if scroll.neg_y {
            FX_NEG_MAX
        } else {
            0
        },
    };
    let constraint_max = Vec2 {
        x: if scroll.pos_x {
            FX_MAX
        } else {
            0
        },
        y: if scroll.pos_y {
            FX_MAX
        } else {
            0
        },
    };
    let clamped = offset.clamp(clamp_min, clamp_max);
    let bounded = clamped.clamp(constraint_min, constraint_max);
    let pipe = bounded.x == buffer_offset.x && bounded.y == buffer_offset.y;
    let span = clamp_max.sub(clamp_min);
    let num = bounded.sub(clamp_min);
    let frac = Vec2 {
        x: clamp01(crate::fixed::fx_div(num.x, span.x)),
        y: clamp01(crate::fixed::fx_div(num.y, span.y)),
    };
    let fraction = if xs && !ys {
        Some(frac.x)
    } else if !xs && ys {
        Some(frac.y)
    } else {
        None
    };
    ScrollOutcome::Scrolled { offset: bounded, pipe, fraction }
}

} // verus!
