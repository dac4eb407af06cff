//! Two-dimensional fixed-point vectors and rotations.

use vstd::prelude::*;

use crate::fixed::{
    fx_add, fx_add_s, fx_clamp, fx_div, fx_div_s, fx_in_range, fx_max, fx_min, fx_mul, fx_mul_s,
    fx_neg, fx_sub, fx_sub_s,
};

verus! {

/// A 2D vector of fixed-point scalars.
#[derive(Clone, Copy, Debug, PartialEq, Eq, Structural)]
pub struct Vec2 {
    pub x: i64,
    pub y: i64,
}

/// Component-wise saturating sum.
pub open spec fn vadd_s(a: Vec2, b: Vec2) -> Vec2 {
    Vec2 { x: fx_add_s(a.x as int, b.x as int) as i64, y: fx_add_s(a.y as int, b.y as int) as i64 }
}

/// Component-wise saturating difference.
pub open spec fn vsub_s(a: Vec2, b: Vec2) -> Vec2 {
    Vec2 { x: fx_sub_s(a.x as int, b.x as int) as i64, y: fx_sub_s(a.y as int, b.y as int) as i64 }
}

/// Component-wise saturating fixed-point product.
pub open spec fn vmul_s(a: Vec2, b: Vec2) -> Vec2 {
    Vec2 { x: fx_mul_s(a.x as int, b.x as int) as i64, y: fx_mul_s(a.y as int, b.y as int) as i64 }
}

/// Component-wise saturating fixed-point quotient (0 where `b` is 0).
pub open spec fn vdiv_s(a: Vec2, b: Vec2) -> Vec2 {
    Vec2 { x: fx_div_s(a.x as int, b.x as int) as i64, y: fx_div_s(a.y as int, b.y as int) as i64 }
}

/// Both components scaled by one fixed-point factor.
pub open spec fn vscale_s(a: Vec2, f: int) -> Vec2 {
    Vec2 { x: fx_mul_s(a.x as int, f) as i64, y: fx_mul_s(a.y as int, f) as i64 }
}

/// Component-wise saturating negation.
pub open spec fn vneg_s(a: Vec2) -> Vec2 {
    Vec2 { x: fx_clamp(-(a.x as int)) as i64, y: fx_clamp(-(a.y as int)) as i64 }
}

/// Component-wise minimum.
pub open spec fn vmin_s(a: Vec2, b: Vec2) -> Vec2 {
    Vec2 {
        x: vstd::math::min(a.x as int, b.x as int) as i64,
        y: vstd::math::min(a.y as int, b.y as int) as i64,
    }
}

/// Component-wise maximum.
pub open spec fn vmax_s(a: Vec2, b: Vec2) -> Vec2 {
    Vec2 {
        x: vstd::math::max(a.x as int, b.x as int) as i64,
        y: vstd::math::max(a.y as int, b.y as int) as i64,
    }
}

impl Vec2 {
    /// The zero vector.
    pub fn zero() -> (r: Vec2)
        ensures
            r == (Vec2 { x: 0, y: 0 }),
    {
        Vec2 { x: 0, y: 0 }
    }

    pub fn new(x: i64, y: i64) -> (r: Vec2)
        ensures
            r == (Vec2 { x: x, y: y }),
    {
        Vec2 { x, y }
    }

    /// Component-wise saturating sum.
    pub fn add(self, o: Vec2) -> (r: Vec2)
        ensures
            r == vadd_s(self, o),
    {
        Vec2 { x: fx_add(self.x, o.x), y: fx_add(self.y, o.y) }
    }

    /// Component-wise saturating difference.
    pub fn sub(self, o: Vec2) -> (r: Vec2)
        ensures
            r == vsub_s(self, o),
    {
        Vec2 { x: fx_sub(self.x, o.x), y: fx_sub(self.y, o.y) }
    }

    /// Component-wise saturating fixed-point product.
    pub fn mul(self, o: Vec2) -> (r: Vec2)
        ensures
            r == vmul_s(self, o),
    {
        Vec2 { x: fx_mul(self.x, o.x), y: fx_mul(self.y, o.y) }
    }

    /// Both components scaled by one fixed-point factor.
    pub fn scale(self, f: i64) -> (r: Vec2)
        ensures
            r == vscale_s(self, f as int),
    {
        Vec2 { x: fx_mul(self.x, f), y: fx_mul(self.y, f) }
    }

    /// Component-wise saturating fixed-point quotient; a zero divisor
    /// component yields 0 in that component.
    pub fn div(self, o: Vec2) -> (r: Vec2)
        ensures
            r == vdiv_s(self, o),
    {
        Vec2 { x: fx_div(self.x, o.x), y: fx_div(self.y, o.y) }
    }

    /// Component-wise saturating negation.
    pub fn neg(self) -> (r: Vec2)
        ensures
            r == vneg_s(self),
    {
        Vec2 { x: fx_neg(self.x), y: fx_neg(self.y) }
    }

    /// Component-wise minimum.
    pub fn min(self, o: Vec2) -> (r: Vec2)
        ensures
            r == vmin_s(self, o),
    {
        Vec2 { x: fx_min(self.x, o.x), y: fx_min(self.y, o.y) }
    }

    /// Component-wise maximum.
    pub fn max(self, o: Vec2) -> (r: Vec2)
        ensures
            r == vmax_s(self, o),
    {
        Vec2 { x: fx_max(self.x, o.x), y: fx_max(self.y, o.y) }
    }

    /// Component-wise clamp of `self` between `lo` and `hi`.
    pub fn clamp(self, lo: Vec2, hi: Vec2) -> (r: Vec2)
        ensures
            r == vmin_s(vmax_s(self, lo), hi),
    {
        self.max(lo).min(hi)
    }

    /// Whether both components are in the representable fixed-point range.
    pub open spec fn in_range(self) -> bool {
        fx_in_range(self.x as int) && fx_in_range(self.y as int)
    }
}

/// A rotation, carried as the cosine and sine of its angle in fixed point.
///
/// The engine never evaluates trigonometric functions itself; hosts hand
/// rotations in as a ready `(cos, sin)` pair.
#[derive(Clone, Copy, Debug, PartialEq, Eq, Structural)]
pub struct Rot2 {
    pub cos: i64,
    pub sin: i64,
}

impl Rot2 {
    /// The identity rotation.
    pub fn identity() -> (r: Rot2)
        ensures
            r == (Rot2 { cos: crate::fixed::FX_SCALE, sin: 0 }),
    {
        Rot2 { cos: crate::fixed::FX_SCALE, sin: 0 }
    }

    /// The image of `v` under this rotation, as fixed-point spec values.
    pub open spec fn apply_spec(self, v: Vec2) -> Vec2 {
        Vec2 {
            x: fx_sub_s(
                fx_mul_s(self.cos as int, v.x as int),
                fx_mul_s(self.sin as int, v.y as int),
            ) as i64,
            y: fx_add_s(
                fx_mul_s(self.sin as int, v.x as int),
                fx_mul_s(self.cos as int, v.y as int),
            ) as i64,
        }
    }

    /// Rotate `v`.
    pub fn apply(self, v: Vec2) -> (r: Vec2)
        ensures
            r == self.apply_spec(v),
    {
        Vec2 {
            x: fx_sub(fx_mul(self.cos, v.x), fx_mul(self.sin, v.y)),
            y: fx_add(fx_mul(self.sin, v.x), fx_mul(self.cos, v.y)),
        }
    }

    /// The composition of `self` after `o`, as spec values.
    pub open spec fn compose_spec(self, o: Rot2) -> Rot2 {
        Rot2 {
            cos: fx_sub_s(
                fx_mul_s(self.cos as int, o.cos as int),
                fx_mul_s(self.sin as int, o.sin as int),
            ) as i64,
            sin: fx_add_s(
                fx_mul_s(self.sin as int, o.cos as int),
                fx_mul_s(self.cos as int, o.sin as int),
            ) as i64,
        }
    }

    /// Compose two rotations (angles add).
    pub fn compose(self, o: Rot2) -> (r: Rot2)
        ensures
            r == self.compose_spec(o),
    {
        Rot2 {
            cos: fx_sub(fx_mul(self.cos, o.cos), fx_mul(self.sin, o.sin)),
            sin: fx_add(fx_mul(self.sin, o.cos), fx_mul(self.cos, o.sin)),
        }
    }

    /// The transpose (inverse) rotation.
    pub fn transpose(self) -> (r: Rot2)
        ensures
            r.cos == self.cos,
            r.sin as int == fx_clamp(-(self.sin as int)),
    {
        Rot2 { cos: self.cos, sin: fx_neg(self.sin) }
    }
}

} // verus!
