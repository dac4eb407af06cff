//! The unit resolver: context-relative sizes and their conversion to pixels.

use vstd::prelude::*;

use crate::fixed::{fx_mul, fx_mul_s, FX_SCALE};
use crate::vec2::Vec2;

verus! {

/// The root relative size of the output surface (the `rem` unit).
///
/// By default this is 16 pixels.
#[derive(Clone, Copy, Debug, PartialEq, Eq, Structural)]
pub struct AouiREM(pub i64);

impl AouiREM {
    pub fn get(&self) -> (r: i64)
        ensures
            r == self.0,
    {
        self.0
    }
}

impl Default for AouiREM {
    fn default() -> (r: Self)
        ensures
            r.0 as int == 16 * FX_SCALE as int,
    {
        AouiREM(160000)
    }
}

/// Set the font size (`em`) relative to the parent.
#[derive(Clone, Copy, Debug, PartialEq, Eq, Structural)]
pub enum SetEM {
    /// Keep the parent's `em`.
    Inherit,
    Pixels(i64),
    Ems(i64),
    Rems(i64),
}

impl SetEM {
    /// The resolved `em` given the parent's `em` and the root `rem`.
    pub open spec fn resolve_spec(self, parent_em: int, rem: int) -> int {
        match self {
            SetEM::Inherit => parent_em,
            SetEM::Pixels(v) => v as int,
            SetEM::Ems(v) => fx_mul_s(v as int, parent_em),
            SetEM::Rems(v) => fx_mul_s(v as int, rem),
        }
    }

    /// Resolve this setting against the parent's `em` and the root `rem`.
    pub fn resolve(self, parent_em: i64, rem: i64) -> (r: i64)
        ensures
            r as int == self.resolve_spec(parent_em as int, rem as int),
    {
        match self {
            SetEM::Inherit => parent_em,
            SetEM::Pixels(v) => v,
            SetEM::Ems(v) => fx_mul(v, parent_em),
            SetEM::Rems(v) => fx_mul(v, rem),
        }
    }
}

impl Default for SetEM {
    fn default() -> (r: Self)
        ensures
            r is Inherit,
    {
        SetEM::Inherit
    }
}

/// The unit of a size: `px`, `em`, `rem` or a fraction of the parent.
#[derive(Clone, Copy, Debug, PartialEq, Eq, Structural)]
pub enum SizeUnit {
    Pixels,
    Em,
    Rem,
    Percent,
}

impl SizeUnit {
    /// The value in pixels: `Pixels` passes the magnitude through, `Em` and
    /// `Rem` scale it by the font sizes, `Percent` by the parent dimension.
    pub open spec fn as_pixels_spec(self, value: int, parent: int, em: int, rem: int) -> int {
        match self {
            SizeUnit::Pixels => value,
            SizeUnit::Em => fx_mul_s(value, em),
            SizeUnit::Rem => fx_mul_s(value, rem),
            SizeUnit::Percent => fx_mul_s(value, parent),
        }
    }

    /// Compute the size in pixels given the context.
    pub fn as_pixels(self, value: i64, parent: i64, em: i64, rem: i64) -> (r: i64)
        ensures
            r as int == self.as_pixels_spec(value as int, parent as int, em as int, rem as int),
    {
        match self {
            SizeUnit::Pixels => value,
            SizeUnit::Em => fx_mul(value, em),
            SizeUnit::Rem => fx_mul(value, rem),
            SizeUnit::Percent => fx_mul(value, parent),
        }
    }
}

impl Default for SizeUnit {
    fn default() -> (r: Self)
        ensures
            r is Pixels,
    {
        SizeUnit::Pixels
    }
}

/// A context-sensitive 1D length: a unit and a raw magnitude.
#[derive(Clone, Copy, Debug, PartialEq, Eq, Structural)]
pub struct Size {
    pub unit: SizeUnit,
    pub value: i64,
}

impl Size {
    pub fn new(unit: SizeUnit, value: i64) -> (r: Size)
        ensures
            r == (Size { unit, value }),
    {
        Size { unit, value }
    }

    /// The length in pixels given the context.
    pub open spec fn as_pixels_spec(self, parent: int, em: int, rem: int) -> int {
        self.unit.as_pixels_spec(self.value as int, parent, em, rem)
    }

    /// Compute the length in pixels given the context.
    pub fn as_pixels(&self, parent: i64, em: i64, rem: i64) -> (r: i64)
        ensures
            r as int == self.as_pixels_spec(parent as int, em as int, rem as int),
    {
        self.unit.as_pixels(self.value, parent, em, rem)
    }
}

/// A context-sensitive 2D size: a unit per axis and a raw magnitude.
#[derive(Clone, Copy, Debug, PartialEq, Eq, Structural)]
pub struct Size2 {
    pub x: SizeUnit,
    pub y: SizeUnit,
    pub raw: Vec2,
}

impl Size2 {
    /// The zero size in pixels.
    pub fn zero() -> (r: Self)
        ensures
            r.units_spec() == (SizeUnit::Pixels, SizeUnit::Pixels),
            r.raw_spec() == (Vec2 { x: 0, y: 0 }),
    {
        Size2 { x: SizeUnit::Pixels, y: SizeUnit::Pixels, raw: Vec2 { x: 0, y: 0 } }
    }

    /// The full parent size: 100% on both axes.
    pub fn inherit() -> (r: Self)
        ensures
            r.units_spec() == (SizeUnit::Percent, SizeUnit::Percent),
            r.raw_spec() == (Vec2 { x: FX_SCALE, y: FX_SCALE }),
    {
        Size2 { x: SizeUnit::Percent, y: SizeUnit::Percent, raw: Vec2 { x: FX_SCALE, y: FX_SCALE } }
    }

    /// Construct a size from a unit and magnitude per axis.
    pub fn new(x: (SizeUnit, i64), y: (SizeUnit, i64)) -> (r: Self)
        ensures
            r.units_spec() == (x.0, y.0),
            r.raw_spec() == (Vec2 { x: x.1, y: y.1 }),
    {
        Size2 { x: x.0, y: y.0, raw: Vec2 { x: x.1, y: y.1 } }
    }

    /// Size in fixed numbers of pixels.
    pub fn pixels(x: i64, y: i64) -> (r: Self)
        ensures
            r.units_spec() == (SizeUnit::Pixels, SizeUnit::Pixels),
            r.raw_spec() == (Vec2 { x: x, y: y }),
    {
        Size2 { x: SizeUnit::Pixels, y: SizeUnit::Pixels, raw: Vec2 { x, y } }
    }

    /// Size relative to the font size.
    pub fn em(x: i64, y: i64) -> (r: Self)
        ensures
            r.units_spec() == (SizeUnit::Em, SizeUnit::Em),
            r.raw_spec() == (Vec2 { x: x, y: y }),
    {
        Size2 { x: SizeUnit::Em, y: SizeUnit::Em, raw: Vec2 { x, y } }
    }

    /// Size relative to the root font size.
    pub fn rem(x: i64, y: i64) -> (r: Self)
        ensures
            r.units_spec() == (SizeUnit::Rem, SizeUnit::Rem),
            r.raw_spec() == (Vec2 { x: x, y: y }),
    {
        Size2 { x: SizeUnit::Rem, y: SizeUnit::Rem, raw: Vec2 { x, y } }
    }

    /// Size as a fraction of the parent size.
    pub fn percent(x: i64, y: i64) -> (r: Self)
        ensures
            r.units_spec() == (SizeUnit::Percent, SizeUnit::Percent),
            r.raw_spec() == (Vec2 { x: x, y: y }),
    {
        Size2 { x: SizeUnit::Percent, y: SizeUnit::Percent, raw: Vec2 { x, y } }
    }

    /// The size in pixels given the context, component-wise.
    pub open spec fn as_pixels_spec(self, parent: Vec2, em: int, rem: int) -> Vec2 {
        Vec2 {
            x: self.x.as_pixels_spec(self.raw.x as int, parent.x as int, em, rem) as i64,
            y: self.y.as_pixels_spec(self.raw.y as int, parent.y as int, em, rem) as i64,
        }
    }

    /// Compute the size in pixels given the parent dimension and font sizes.
    pub fn as_pixels(&self, parent: Vec2, em: i64, rem: i64) -> (r: Vec2)
        ensures
            r == self.as_pixels_spec(parent, em as int, rem as int),
    {
        Vec2 {
            x: self.x.as_pixels(self.raw.x, parent.x, em, rem),
            y: self.y.as_pixels(self.raw.y, parent.y, em, rem),
        }
    }

    /// The units of the two axes, as spec values.
    pub open spec fn units_spec(self) -> (SizeUnit, SizeUnit) {
        (self.x, self.y)
    }

    /// Units of x and y.
    pub fn units(&self) -> (r: (SizeUnit, SizeUnit))
        ensures
            r == self.units_spec(),
    {
        (self.x, self.y)
    }

    /// The raw magnitude, as a spec value.
    pub open spec fn raw_spec(self) -> Vec2 {
        self.raw
    }

    /// The raw magnitude; its meaning depends on the units.
    pub fn raw(&self) -> (r: Vec2)
        ensures
            r == self.raw_spec(),
    {
        self.raw
    }

    /// Replace the raw magnitude.
    pub fn set_raw(&mut self, value: Vec2)
        ensures
            final(self).raw_spec() == value,
            final(self).units_spec() == old(self).units_spec(),
    {
        self.raw = value;
    }

    /// Rewrite the raw magnitude through `f`.
    pub fn edit_raw<F: FnOnce(Vec2) -> Vec2>(&mut self, f: F)
        requires
            f.requires((old(self).raw_spec(),)),
        ensures
            f.ensures((old(self).raw_spec(),), final(self).raw_spec()),
            final(self).units_spec() == old(self).units_spec(),
    {
        self.raw = f(self.raw);
    }
}

impl Default for Size2 {
    fn default() -> (r: Self)
        ensures
            r.units_spec() == (SizeUnit::Pixels, SizeUnit::Pixels),
            r.raw_spec() == (Vec2 { x: 0, y: 0 }),
    {
        Size2::zero()
    }
}

} // verus!
