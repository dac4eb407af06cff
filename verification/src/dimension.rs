//! Per-entity dimension: an authored context-relative size, or a size
//! derived each frame from content.

use vstd::prelude::*;

use crate::scaling::{SetEM, Size2};
use crate::vec2::Vec2;

verus! {

/// How an entity's dimension is determined.
#[derive(Clone, Copy, Debug, PartialEq, Eq, Structural)]
pub enum DimensionSize {
    /// An explicit context-relative size.
    Owned(Size2),
    /// Copied from content (text metrics, image intrinsic size) or from the
    /// previous frame's computed size; external systems write the pixel
    /// value into [`Dimension::size`] before each pass.
    Copied,
}

/// An entity's dimension and font size.
#[derive(Clone, Copy, Debug, PartialEq, Eq, Structural)]
pub struct Dimension {
    /// The source of the dimension.
    pub dim: DimensionSize,
    /// How the font size is derived from the parent's.
    pub set_em: SetEM,
    /// The evaluated size in pixels. For `Copied` dimensions this doubles
    /// as the input slot filled by content systems.
    pub size: Vec2,
    /// The evaluated font size in pixels.
    pub em: i64,
}

impl Dimension {
    /// An owned dimension with inherited font size.
    pub fn owned(size: Size2) -> (r: Dimension)
        ensures
            r.dim == DimensionSize::Owned(size),
            r.set_em is Inherit,
            r.size == (Vec2 { x: 0, y: 0 }),
            r.em == 0,
    {
        Dimension { dim: DimensionSize::Owned(size), set_em: SetEM::Inherit, size: Vec2::zero(), em: 0 }
    }

    /// A content-copied dimension with inherited font size.
    pub fn copied() -> (r: Dimension)
        ensures
            r.dim is Copied,
            r.set_em is Inherit,
            r.size == (Vec2 { x: 0, y: 0 }),
            r.em == 0,
    {
        Dimension { dim: DimensionSize::Copied, set_em: SetEM::Inherit, size: Vec2::zero(), em: 0 }
    }

    /// This dimension with another font-size setting.
    pub fn with_em(self, set_em: SetEM) -> (r: Dimension)
        ensures
            r == (Dimension { set_em, ..self }),
    {
        Dimension { set_em, ..self }
    }

    /// Whether the dimension is authored rather than content-derived.
    pub fn is_owned(&self) -> (r: bool)
        ensures
            r == (self.dim is Owned),
    {
        matches!(self.dim, DimensionSize::Owned(_))
    }

    /// The font size this dimension resolves to under a parent.
    pub open spec fn resolve_em_spec(self, parent_em: int, rem: int) -> int {
        self.set_em.resolve_spec(parent_em, rem)
    }

    /// The pixel size this dimension resolves to under a parent: owned
    /// sizes are resolved by the unit resolver, copied sizes keep the
    /// stored content value.
    pub open spec fn resolve_size_spec(self, parent: Vec2, em: int, rem: int) -> Vec2 {
        match self.dim {
            DimensionSize::Owned(s) => s.as_pixels_spec(parent, em, rem),
            DimensionSize::Copied => self.size,
        }
    }

    /// Evaluate the dimension against the parent context, storing and
    /// returning the resolved pixel size and font size.
    pub fn update(&mut self, parent: Vec2, parent_em: i64, rem: i64) -> (r: (Vec2, i64))
        ensures
            r.0 == old(self).resolve_size_spec(parent, r.1 as int, rem as int),
            r.1 as int == old(self).resolve_em_spec(parent_em as int, rem as int),
            *final(self) == (Dimension { size: r.0, em: r.1, ..*old(self) }),
    {
        let em = self.set_em.resolve(parent_em, rem);
        let size = match self.dim {
            DimensionSize::Owned(s) => s.as_pixels(parent, em, rem),
            DimensionSize::Copied => self.size,
        };
        self.size = size;
        self.em = em;
        (size, em)
    }

    /// The layout size estimate of this dimension: resolved for owned
    /// sizes, the stored content value for copied ones. Callers hand a zero
    /// `parent` when the estimate must not depend on the unresolved
    /// container dimension.
    pub fn estimate(&self, parent: Vec2, em: i64, rem: i64) -> (r: Vec2)
        ensures
            r == self.resolve_size_spec(parent, em as int, rem as int),
    {
        match self.dim {
            DimensionSize::Owned(s) => s.as_pixels(parent, em, rem),
            DimensionSize::Copied => self.size,
        }
    }
}

impl Default for Dimension {
    fn default() -> (r: Self)
        ensures
            r.dim is Copied,
            r.set_em is Inherit,
            r.size == (Vec2 { x: 0, y: 0 }),
            r.em == 0,
    {
        Dimension::copied()
    }
}

} // verus!
