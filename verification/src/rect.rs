//! Rectangle algebra: anchored, rotated, scaled rectangles in world space.

use vstd::prelude::*;

use crate::anchor::Anchor;
use crate::fixed::{fx_in_range, fx_sub_s, fx_add_s};
use crate::vec2::{vadd_s, vmul_s, vsub_s, Rot2, Vec2};

verus! {

/// An affine map from a rectangle's centered fraction space to world pixels.
///
/// A fraction point `p` (center `(0,0)`, corners `(±0.5, ±0.5)`) is mapped to
/// `pivot + rot · ((p − center) · scaled_dim)`: offset from the rotation
/// center, stretched to the rectangle's scaled pixel dimension, rotated, and
/// translated by the world position of the rotation center.
#[derive(Clone, Copy, Debug, PartialEq, Eq, Structural)]
pub struct Affine2 {
    /// The rectangle's world rotation.
    pub rot: Rot2,
    /// The rectangle's dimension in pixels, scaled by its world scale.
    pub scaled_dim: Vec2,
    /// The centered fraction the rectangle rotates and scales about.
    pub center: Vec2,
    /// The world position of the rotation center.
    pub pivot: Vec2,
}

impl Affine2 {
    /// The image of the centered fraction `p` in world pixels.
    pub open spec fn transform_spec(self, p: Vec2) -> Vec2 {
        vadd_s(self.pivot, self.rot.apply_spec(vmul_s(vsub_s(p, self.center), self.scaled_dim)))
    }

    /// Map a centered fraction of the rectangle to world pixels.
    pub fn transform(&self, p: Vec2) -> (r: Vec2)
        ensures
            r == self.transform_spec(p),
    {
        self.pivot.add(self.rot.apply(p.sub(self.center).mul(self.scaled_dim)))
    }

    /// The preimage of a world point, as a centered fraction.
    ///
    /// This is the inverse map used for scissor testing; a degenerate
    /// (zero) dimension component yields fraction 0 on that axis.
    pub open spec fn untransform_spec(self, w: Vec2) -> Vec2 {
        vadd_s(
            crate::vec2::vdiv_s(
                self.rot.transpose_rot_spec().apply_spec(vsub_s(w, self.pivot)),
                self.scaled_dim,
            ),
            self.center,
        )
    }

    /// Map a world point back to a centered fraction of the rectangle.
    pub fn untransform(&self, w: Vec2) -> (r: Vec2)
        ensures
            r == self.untransform_spec(w),
    {
        self.rot.transpose().apply(w.sub(self.pivot)).div(self.scaled_dim).add(self.center)
    }

    /// An axis-aligned, unrotated map that stretches fractions by `dim`
    /// about the world origin (the map of a root surface).
    pub fn from_scale(dim: Vec2) -> (r: Affine2)
        ensures
            r.rot == (Rot2 { cos: crate::fixed::FX_SCALE, sin: 0 }),
            r.scaled_dim == dim,
            r.center == (Vec2 { x: 0, y: 0 }),
            r.pivot == (Vec2 { x: 0, y: 0 }),
    {
        Affine2 {
            rot: Rot2::identity(),
            scaled_dim: dim,
            center: Vec2::zero(),
            pivot: Vec2::zero(),
        }
    }
}

impl Rot2 {
    /// The transpose rotation as a spec value.
    pub open spec fn transpose_rot_spec(self) -> Rot2 {
        Rot2 { cos: self.cos, sin: crate::fixed::fx_clamp(-(self.sin as int)) as i64 }
    }
}

/// The engine's output for one element: an affine map from the unit square
/// to world pixels, with standalone rotation, scale and paint depth.
///
/// Derived each frame, never authored directly.
#[derive(Clone, Copy, Debug, PartialEq, Eq, Structural)]
pub struct RotatedRect {
    pub affine: Affine2,
    pub rotation: Rot2,
    pub scale: Vec2,
    pub z: i64,
}

/// The state a parent hands to each of its children during one traversal
/// step. Created fresh per queued `(entity, info)` pair and consumed once.
#[derive(Clone, Copy, Debug)]
pub struct ParentInfo {
    /// The entity this info was derived from; `None` for the root surface.
    pub entity: Option<usize>,
    /// The parent's resolved rectangle.
    pub rect: RotatedRect,
    /// A container-assigned centered anchor fraction on the parent,
    /// overriding the child's own `parent_anchor`.
    pub anchor: Option<Vec2>,
    /// The parent's resolved dimension in pixels.
    pub dimension: Vec2,
    /// The parent's resolved font size.
    pub em: i64,
    /// The parent's composed opacity.
    pub opacity: i64,
    /// The parent's composed disabled flag.
    pub disabled: bool,
    /// The affine of the nearest clipping ancestor, if any.
    pub clip: Option<Affine2>,
}

impl ParentInfo {
    /// Root info for a surface rectangle.
    pub fn new(
        entity: Option<usize>,
        rect: &RotatedRect,
        dimension: Vec2,
        em: i64,
        opacity: i64,
    ) -> (r: ParentInfo)
        ensures
            r.entity == entity,
            r.rect == *rect,
            r.anchor is None,
            r.dimension == dimension,
            r.em == em,
            r.opacity == opacity,
            r.disabled == false,
            r.clip is None,
    {
        ParentInfo {
            entity,
            rect: *rect,
            anchor: None,
            dimension,
            em,
            opacity,
            disabled: false,
            clip: None,
        }
    }

    /// This info with a container-assigned anchor fraction.
    pub fn with_anchor(self, anc: Vec2) -> (r: ParentInfo)
        ensures
            r == (ParentInfo { anchor: Some(anc), ..self }),
    {
        ParentInfo { anchor: Some(anc), ..self }
    }
}

/// The world point the constructed rectangle's own anchor is placed at: the
/// resolved anchor point on the parent plus the offset rotated into the
/// parent's space.
pub open spec fn construct_target_spec(
    parent: ParentInfo,
    parent_anchor: Anchor,
    anchor: Anchor,
    offset: Vec2,
) -> Vec2 {
    let pa = match parent.anchor {
        Some(f) => f,
        None => parent_anchor.or_spec(anchor).frac_spec(),
    };
    vadd_s(parent.rect.affine.transform_spec(pa), parent.rect.rotation.apply_spec(offset))
}

/// The world rotation of the constructed rectangle.
pub open spec fn construct_rotation_spec(parent: ParentInfo, rotation: Rot2) -> Rot2 {
    parent.rect.rotation.compose_spec(rotation)
}

/// The world scale of the constructed rectangle.
pub open spec fn construct_scale_spec(parent: ParentInfo, scale: Vec2) -> Vec2 {
    vmul_s(parent.rect.scale, scale)
}

/// The vector from the rectangle's rotation center to its own anchor, in
/// world space.
pub open spec fn construct_arm_spec(
    parent: ParentInfo,
    anchor: Anchor,
    center: Anchor,
    dim: Vec2,
    rotation: Rot2,
    scale: Vec2,
) -> Vec2 {
    let scaled_dim = vmul_s(dim, construct_scale_spec(parent, scale));
    let a = anchor.frac_spec();
    let c = center.or_spec(anchor).frac_spec();
    construct_rotation_spec(parent, rotation).apply_spec(vmul_s(vsub_s(a, c), scaled_dim))
}

/// The full result of [`RotatedRect::construct`].
pub open spec fn construct_spec(
    parent: ParentInfo,
    parent_anchor: Anchor,
    anchor: Anchor,
    offset: Vec2,
    dim: Vec2,
    center: Anchor,
    rotation: Rot2,
    scale: Vec2,
    z: int,
) -> RotatedRect {
    let rot = construct_rotation_spec(parent, rotation);
    let scl = construct_scale_spec(parent, scale);
    let target = construct_target_spec(parent, parent_anchor, anchor, offset);
    let arm = construct_arm_spec(parent, anchor, center, dim, rotation, scale);
    RotatedRect {
        affine: Affine2 {
            rot,
            scaled_dim: vmul_s(dim, scl),
            center: center.or_spec(anchor).frac_spec(),
            pivot: vsub_s(target, arm),
        },
        rotation: rot,
        scale: scl,
        z: z as i64,
    }
}

impl Anchor {
    /// `self`, falling back on `other` when `self` is `Inherit`, as a spec
    /// value.
    pub open spec fn or_spec(self, other: Anchor) -> Anchor {
        if self is Inherit {
            other
        } else {
            self
        }
    }
}

impl RotatedRect {
    /// The world position of an anchor point on this rectangle.
    pub open spec fn anchor_spec(self, a: Anchor) -> Vec2 {
        self.affine.transform_spec(a.frac_spec())
    }

    /// Find the world position of an anchor point on this rectangle.
    pub fn anchor(&self, a: Anchor) -> (r: Vec2)
        ensures
            r == self.anchor_spec(a),
    {
        let frac = a.as_frac();
        self.affine.transform(frac)
    }

    /// A root rectangle of dimension `dim`, centered on the world origin,
    /// unrotated and unscaled, at depth 0.
    pub fn root(dim: Vec2) -> (r: RotatedRect)
        ensures
            r.affine == (Affine2 {
                rot: Rot2 { cos: crate::fixed::FX_SCALE, sin: 0 },
                scaled_dim: dim,
                center: Vec2 { x: 0, y: 0 },
                pivot: Vec2 { x: 0, y: 0 },
            }),
            r.rotation == (Rot2 { cos: crate::fixed::FX_SCALE, sin: 0 }),
            r.scale == (Vec2 { x: crate::fixed::FX_SCALE, y: crate::fixed::FX_SCALE }),
            r.z == 0,
    {
        RotatedRect {
            affine: Affine2::from_scale(dim),
            rotation: Rot2::identity(),
            scale: Vec2 { x: crate::fixed::FX_SCALE, y: crate::fixed::FX_SCALE },
            z: 0,
        }
    }

    /// Place a rectangle of pixel size `dim` against its parent.
    ///
    /// The rectangle's own `anchor` lands exactly on the anchor point that
    /// `parent_anchor` (or a container-assigned fraction) resolves to on the
    /// parent, displaced by `offset` in the parent's rotated space; the
    /// rectangle is then rotated by `rotation` and scaled by `scale` about
    /// `center`, both composed with the parent's rotation and scale. `z` is
    /// carried as a separate scalar, not part of the affine map.
    pub fn construct(
        parent: &ParentInfo,
        parent_anchor: Anchor,
        anchor: Anchor,
        offset: Vec2,
        dim: Vec2,
        center: Anchor,
        rotation: Rot2,
        scale: Vec2,
        z: i64,
    ) -> (r: RotatedRect)
        ensures
            r == construct_spec(
                *parent,
                parent_anchor,
                anchor,
                offset,
                dim,
                center,
                rotation,
                scale,
                z as int,
            ),
    {
        let pa: Vec2 = match parent.anchor {
            Some(f) => f,
            None => parent_anchor.or(anchor).as_frac(),
        };
        let target = parent.rect.affine.transform(pa).add(parent.rect.rotation.apply(offset));
        let rot = parent.rect.rotation.compose(rotation);
        let scl = parent.rect.scale.mul(scale);
        let scaled_dim = dim.mul(scl);
        let c = center.or(anchor).as_frac();
        let a = anchor.as_frac();
        let arm = rot.apply(a.sub(c).mul(scaled_dim));
        let pivot = target.sub(arm);
        RotatedRect {
            affine: Affine2 { rot, scaled_dim, center: c, pivot },
            rotation: rot,
            scale: scl,
            z,
        }
    }
}

/// Anchor round trip: a rectangle placed by [`RotatedRect::construct`] hands
/// back, for the very anchor it was constructed with, exactly the world
/// point it was placed at — for every anchor, rotation and scale, as long as
/// the arithmetic stays inside the saturation range.
pub proof fn lemma_construct_anchor_round_trip(
    parent: ParentInfo,
    parent_anchor: Anchor,
    anchor: Anchor,
    offset: Vec2,
    dim: Vec2,
    center: Anchor,
    rotation: Rot2,
    scale: Vec2,
    z: int,
)
    requires
        ({
            let target = construct_target_spec(parent, parent_anchor, anchor, offset);
            let arm = construct_arm_spec(parent, anchor, center, dim, rotation, scale);
            fx_in_range(target.x as int) && fx_in_range(target.y as int) && fx_in_range(
                target.x as int - arm.x as int,
            ) && fx_in_range(target.y as int - arm.y as int)
        }),
    ensures
        construct_spec(
            parent,
            parent_anchor,
            anchor,
            offset,
            dim,
            center,
            rotation,
            scale,
            z,
        ).anchor_spec(anchor) == construct_target_spec(parent, parent_anchor, anchor, offset),
{
    let target = construct_target_spec(parent, parent_anchor, anchor, offset);
    let arm = construct_arm_spec(parent, anchor, center, dim, rotation, scale);
    let r = construct_spec(parent, parent_anchor, anchor, offset, dim, center, rotation, scale, z);
    assert(r.affine.pivot.x as int == fx_sub_s(target.x as int, arm.x as int));
    assert(r.affine.pivot.x as int == target.x as int - arm.x as int);
    assert(r.anchor_spec(anchor).x as int == fx_add_s(
        r.affine.pivot.x as int,
        arm.x as int,
    ));
    assert(r.anchor_spec(anchor).y as int == fx_add_s(
        r.affine.pivot.y as int,
        arm.y as int,
    ));
}

} // verus!
