//! Unit resolver and fixed-point arithmetic scenarios.
//!
//! All scalars are fixed-point with 10000 units per 1.0.

use aoui::fixed::{fx_add, fx_div, fx_mul, FX_MAX, FX_SCALE};
use aoui::scaling::{AouiREM, SetEM, Size, Size2, SizeUnit};
use aoui::vec2::Vec2;

/// A pixel count as a fixed-point value.
fn px(v: i64) -> i64 {
    v * FX_SCALE
}

#[test]
fn percent_of_parent_resolves() {
    // as_pixels(Percent, 0.5, parent = 200) == 100
    let half = FX_SCALE / 2;
    assert_eq!(SizeUnit::Percent.as_pixels(half, px(200), px(16), px(16)), px(100));
}

#[test]
fn em_resolves() {
    // as_pixels(Em, 2, em = 16) == 32
    assert_eq!(SizeUnit::Em.as_pixels(2 * FX_SCALE, px(200), px(16), px(16)), px(32));
}

#[test]
fn rem_resolves() {
    assert_eq!(SizeUnit::Rem.as_pixels(3 * FX_SCALE, px(200), px(16), px(20)), px(60));
}

#[test]
fn pixels_pass_through() {
    assert_eq!(SizeUnit::Pixels.as_pixels(px(42), px(200), px(16), px(16)), px(42));
}

#[test]
fn size2_resolves_component_wise() {
    let s = Size2::new((SizeUnit::Percent, FX_SCALE / 2), (SizeUnit::Em, 2 * FX_SCALE));
    let r = s.as_pixels(Vec2::new(px(200), px(100)), px(16), px(16));
    assert_eq!(r, Vec2::new(px(100), px(32)));
}

#[test]
fn size2_raw_roundtrip() {
    let mut s = Size2::pixels(px(1), px(2));
    assert_eq!(s.raw(), Vec2::new(px(1), px(2)));
    assert_eq!(s.units(), (SizeUnit::Pixels, SizeUnit::Pixels));
    s.set_raw(Vec2::new(px(3), px(4)));
    assert_eq!(s.raw(), Vec2::new(px(3), px(4)));
    s.edit_raw(|v| Vec2 { x: v.x, y: px(9) });
    assert_eq!(s.raw(), Vec2::new(px(3), px(9)));
}

#[test]
fn size1_resolves_like_dimensions() {
    let track = Size::new(SizeUnit::Percent, FX_SCALE / 4);
    assert_eq!(track.as_pixels(px(200), px(16), px(16)), px(50));
}

#[test]
fn set_em_resolves() {
    assert_eq!(SetEM::Inherit.resolve(px(16), px(20)), px(16));
    assert_eq!(SetEM::Pixels(px(12)).resolve(px(16), px(20)), px(12));
    assert_eq!(SetEM::Ems(2 * FX_SCALE).resolve(px(16), px(20)), px(32));
    assert_eq!(SetEM::Rems(2 * FX_SCALE).resolve(px(16), px(20)), px(40));
}

#[test]
fn rem_default_is_sixteen() {
    assert_eq!(AouiREM::default().get(), px(16));
}

#[test]
fn fixed_point_saturates_instead_of_overflowing() {
    assert_eq!(fx_add(FX_MAX, FX_MAX), FX_MAX);
    assert_eq!(fx_add(-FX_MAX, -FX_MAX), -FX_MAX);
    assert_eq!(fx_mul(FX_MAX, FX_MAX), FX_MAX);
}

#[test]
fn fixed_point_division_by_zero_is_zero() {
    // The degenerate-input guard: a zero denominator resolves to a safe
    // default instead of propagating garbage.
    assert_eq!(fx_div(px(5), 0), 0);
}

#[test]
fn fixed_point_rounds_toward_zero() {
    assert_eq!(fx_div(1, 3 * FX_SCALE), 0);
    assert_eq!(fx_div(-1, 3 * FX_SCALE), 0);
    assert_eq!(fx_mul(px(7), FX_SCALE / 2), px(7) / 2);
}
