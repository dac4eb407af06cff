//! Rectangle algebra scenarios: anchors and the construct round trip.

use aoui::anchor::Anchor;
use aoui::fixed::FX_SCALE;
use aoui::rect::{ParentInfo, RotatedRect};
use aoui::vec2::{Rot2, Vec2};

fn px(v: i64) -> i64 {
    v * FX_SCALE
}

fn root_info(w: i64, h: i64) -> (RotatedRect, ParentInfo) {
    let rect = RotatedRect::root(Vec2::new(px(w), px(h)));
    let info = ParentInfo::new(None, &rect, Vec2::new(px(w), px(h)), px(16), FX_SCALE);
    (rect, info)
}

#[test]
fn root_anchors_are_corners() {
    let (rect, _) = root_info(200, 100);
    assert_eq!(rect.anchor(Anchor::Center), Vec2::new(0, 0));
    assert_eq!(rect.anchor(Anchor::TopRight), Vec2::new(px(100), px(50)));
    assert_eq!(rect.anchor(Anchor::BottomLeft), Vec2::new(px(-100), px(-50)));
    assert_eq!(rect.anchor(Anchor::CenterLeft), Vec2::new(px(-100), 0));
}

#[test]
fn construct_anchor_round_trip_axis_aligned() {
    // Placement target: parent's bottom-left plus the offset.
    let (_, info) = root_info(200, 200);
    let r = RotatedRect::construct(
        &info,
        Anchor::BottomLeft,
        Anchor::TopRight,
        Vec2::new(px(7), px(3)),
        Vec2::new(px(40), px(20)),
        Anchor::Inherit,
        Rot2::identity(),
        Vec2::new(FX_SCALE, FX_SCALE),
        0,
    );
    assert_eq!(r.anchor(Anchor::TopRight), Vec2::new(px(-93), px(-97)));
}

#[test]
fn construct_anchor_round_trip_rotated_scaled() {
    // The constructing anchor still lands on the same target under a
    // quarter-turn rotation, doubled scale and an off-anchor pivot.
    let (_, info) = root_info(200, 200);
    let quarter = Rot2 { cos: 0, sin: FX_SCALE };
    let r = RotatedRect::construct(
        &info,
        Anchor::BottomLeft,
        Anchor::TopRight,
        Vec2::new(px(7), px(3)),
        Vec2::new(px(40), px(20)),
        Anchor::Center,
        quarter,
        Vec2::new(2 * FX_SCALE, 2 * FX_SCALE),
        px(1),
    );
    assert_eq!(r.anchor(Anchor::TopRight), Vec2::new(px(-93), px(-97)));
}

#[test]
fn construct_applies_custom_fraction_anchor() {
    let (_, info) = root_info(100, 100);
    let custom = Anchor::Custom(Vec2::new(FX_SCALE / 4, 0));
    let r = RotatedRect::construct(
        &info,
        custom,
        custom,
        Vec2::new(0, 0),
        Vec2::new(px(10), px(10)),
        Anchor::Inherit,
        Rot2::identity(),
        Vec2::new(FX_SCALE, FX_SCALE),
        0,
    );
    // Fraction 0.25 of a centered 100px square sits 25px right of center.
    assert_eq!(r.anchor(custom), Vec2::new(px(25), 0));
}

#[test]
fn rotation_composes_through_construct() {
    let (_, info) = root_info(100, 100);
    let quarter = Rot2 { cos: 0, sin: FX_SCALE };
    let r = RotatedRect::construct(
        &info,
        Anchor::Center,
        Anchor::Center,
        Vec2::new(0, 0),
        Vec2::new(px(10), px(10)),
        Anchor::Inherit,
        quarter,
        Vec2::new(FX_SCALE, FX_SCALE),
        0,
    );
    // Parent is unrotated, so the world rotation is the quarter turn.
    assert_eq!(r.rotation, quarter);
    // A quarter turn about the center carries the right edge to the top.
    assert_eq!(r.anchor(Anchor::CenterRight), Vec2::new(0, px(5)));
}

#[test]
fn untransform_inverts_axis_aligned_points() {
    let (rect, _) = root_info(200, 100);
    let frac = Vec2::new(FX_SCALE / 4, -FX_SCALE / 10);
    let world = rect.affine.transform(frac);
    assert_eq!(rect.affine.untransform(world), frac);
}
