//! Attachment points on a rectangle.

use vstd::prelude::*;

use crate::fixed::{FX_HALF, FX_NEG_HALF};
use crate::vec2::Vec2;

verus! {

/// An attachment point on a rectangle: one of nine named points, an
/// arbitrary fractional point, or `Inherit`.
///
/// Fractions are centered: the rectangle's center is `(0, 0)`, its
/// bottom-left corner `(-0.5, -0.5)` and its top-right corner `(0.5, 0.5)`
/// (y grows upward). `Inherit` stands for "use the sibling default" and is
/// resolved with [`Anchor::or`] before any geometry is computed; it never
/// survives into a resolved rectangle.
#[derive(Clone, Copy, Debug, PartialEq, Eq, Structural)]
pub enum Anchor {
    Inherit,
    BottomLeft,
    BottomCenter,
    BottomRight,
    CenterLeft,
    Center,
    CenterRight,
    TopLeft,
    TopCenter,
    TopRight,
    Custom(Vec2),
}

impl Anchor {
    /// The centered fraction this anchor stands for; `Inherit` resolves to
    /// the center.
    pub open spec fn frac_spec(self) -> Vec2 {
        match self {
            Anchor::Inherit => Vec2 { x: 0, y: 0 },
            Anchor::BottomLeft => Vec2 { x: FX_NEG_HALF, y: FX_NEG_HALF },
            Anchor::BottomCenter => Vec2 { x: 0, y: FX_NEG_HALF },
            Anchor::BottomRight => Vec2 { x: FX_HALF, y: FX_NEG_HALF },
            Anchor::CenterLeft => Vec2 { x: FX_NEG_HALF, y: 0 },
            Anchor::Center => Vec2 { x: 0, y: 0 },
            Anchor::CenterRight => Vec2 { x: FX_HALF, y: 0 },
            Anchor::TopLeft => Vec2 { x: FX_NEG_HALF, y: FX_HALF },
            Anchor::TopCenter => Vec2 { x: 0, y: FX_HALF },
            Anchor::TopRight => Vec2 { x: FX_HALF, y: FX_HALF },
            Anchor::Custom(v) => v,
        }
    }

    /// The centered fraction this anchor stands for.
    pub fn as_frac(self) -> (r: Vec2)
        ensures
            r == self.frac_spec(),
    {
        match self {
            Anchor::Inherit => Vec2 { x: 0, y: 0 },
            Anchor::BottomLeft => Vec2 { x: FX_NEG_HALF, y: FX_NEG_HALF },
            Anchor::BottomCenter => Vec2 { x: 0, y: FX_NEG_HALF },
            Anchor::BottomRight => Vec2 { x: FX_HALF, y: FX_NEG_HALF },
            Anchor::CenterLeft => Vec2 { x: FX_NEG_HALF, y: 0 },
            Anchor::Center => Vec2 { x: 0, y: 0 },
            Anchor::CenterRight => Vec2 { x: FX_HALF, y: 0 },
            Anchor::TopLeft => Vec2 { x: FX_NEG_HALF, y: FX_HALF },
            Anchor::TopCenter => Vec2 { x: 0, y: FX_HALF },
            Anchor::TopRight => Vec2 { x: FX_HALF, y: FX_HALF },
            Anchor::Custom(v) => v,
        }
    }

    /// `self`, falling back on `other` when `self` is `Inherit`.
    pub fn or(self, other: Anchor) -> (r: Anchor)
        ensures
            r == if self is Inherit {
                other
            } else {
                self
            },
    {
        match self {
            Anchor::Inherit => other,
            _ => self,
        }
    }
}

} // verus!
