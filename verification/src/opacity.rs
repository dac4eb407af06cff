//! Opacity and visibility state, composed down the tree each frame.

use vstd::prelude::*;

use crate::fixed::{fx_mul, fx_mul_s, FX_SCALE};

verus! {

/// Per-entity opacity and visibility flags.
///
/// `opacity` and `disabled` are authored; `computed_opacity` and
/// `computed_disabled` are refreshed on every propagation pass from the
/// authored value and the parent's composed state. `occluded` is set by a
/// separate overdraw pass outside this core.
#[derive(Clone, Copy, Debug, PartialEq, Eq, Structural)]
pub struct Opacity {
    /// Authored opacity, 0 to 1 in fixed point.
    pub opacity: i64,
    /// Own opacity multiplied by the parent's composed opacity.
    pub computed_opacity: i64,
    /// Authored disabled flag.
    pub disabled: bool,
    /// Boolean or of the own and all ancestor disabled flags.
    pub computed_disabled: bool,
    /// Set by the external "hide if overdrawn" pass.
    pub occluded: bool,
}

impl Opacity {
    /// A fully opaque, enabled state.
    pub fn opaque() -> (r: Opacity)
        ensures
            r.opacity == FX_SCALE,
            r.computed_opacity == FX_SCALE,
            !r.disabled,
            !r.computed_disabled,
            !r.occluded,
    {
        Opacity {
            opacity: FX_SCALE,
            computed_opacity: FX_SCALE,
            disabled: false,
            computed_disabled: false,
            occluded: false,
        }
    }

    /// An enabled state with the given authored opacity.
    pub fn new(opacity: i64) -> (r: Opacity)
        ensures
            r.opacity == opacity,
            r.computed_opacity == opacity,
            !r.disabled,
            !r.computed_disabled,
            !r.occluded,
    {
        Opacity {
            opacity,
            computed_opacity: opacity,
            disabled: false,
            computed_disabled: false,
            occluded: false,
        }
    }

    /// The composed opacity of this element under a parent of composed
    /// opacity `parent`: the product of the two.
    pub open spec fn composed_spec(self, parent: int) -> int {
        fx_mul_s(self.opacity as int, parent)
    }

    /// Compose the authored opacity with the parent's composed opacity.
    pub fn compose(&self, parent: i64) -> (r: i64)
        ensures
            r as int == self.composed_spec(parent as int),
    {
        fx_mul(self.opacity, parent)
    }

    /// The current composed opacity.
    pub fn get(&self) -> (r: i64)
        ensures
            r == self.computed_opacity,
    {
        self.computed_opacity
    }
}

impl Default for Opacity {
    fn default() -> (r: Self)
        ensures
            r.opacity == FX_SCALE,
            r.computed_opacity == FX_SCALE,
            !r.disabled,
            !r.computed_disabled,
            !r.occluded,
    {
        Opacity::opaque()
    }
}

} // verus!
