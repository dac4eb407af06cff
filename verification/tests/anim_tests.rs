//! Animation scenarios: phase clamping, easing, smooth retargeting.

use aoui::anim::{Easing, Interpolate, InterpolateMode};
use aoui::fixed::FX_SCALE;
use aoui::signals::Rgba;
use aoui::vec2::Vec2;

fn px(v: i64) -> i64 {
    v * FX_SCALE
}

#[test]
fn default_mode_reaches_target_exactly() {
    // With the phase clamped, at elapsed >= duration the eased value is
    // exactly the target and further ticks change nothing.
    let mut interp: Interpolate<i64> = Interpolate::new(Easing::Linear, 0, FX_SCALE);
    interp.interpolate_to(px(100));
    interp.tick(FX_SCALE / 2);
    assert_eq!(interp.get(), px(50));
    interp.tick(FX_SCALE / 2);
    assert_eq!(interp.get(), px(100));
    interp.tick(123);
    assert_eq!(interp.get(), px(100));
    interp.tick(7 * FX_SCALE);
    assert_eq!(interp.get(), px(100));
}

#[test]
fn zero_duration_jumps_to_target() {
    let mut interp: Interpolate<i64> = Interpolate::new(Easing::SmoothStep, px(1), 0);
    interp.interpolate_to(px(9));
    interp.tick(1);
    assert_eq!(interp.get(), px(9));
}

#[test]
fn retarget_restarts_from_current_value() {
    // A new target mid-flight produces a smooth retarget, not a jump.
    let mut interp: Interpolate<i64> = Interpolate::new(Easing::Linear, 0, FX_SCALE);
    interp.interpolate_to(px(100));
    interp.tick(FX_SCALE / 2);
    assert_eq!(interp.get(), px(50));
    interp.interpolate_to(px(10));
    assert_eq!(interp.from, px(50));
    assert_eq!(interp.elapsed, 0);
    interp.tick(FX_SCALE / 2);
    assert_eq!(interp.get(), px(30));
    interp.tick(FX_SCALE / 2);
    assert_eq!(interp.get(), px(10));
}

#[test]
fn repeat_mode_wraps_sawtooth() {
    let mut interp: Interpolate<i64> =
        Interpolate::repeat(Easing::Linear, 0, px(10), FX_SCALE);
    interp.tick(15 * FX_SCALE / 10);
    // elapsed 1.5s of a 1s period: phase 0.5.
    assert_eq!(interp.get(), px(5));
    assert_eq!(interp.mode, InterpolateMode::Repeat);
}

#[test]
fn looping_mode_bounces_triangle() {
    let mut interp: Interpolate<i64> =
        Interpolate::looping(Easing::Linear, 0, px(10), FX_SCALE);
    interp.tick(15 * FX_SCALE / 10);
    // elapsed 1.5s of a 1s triangle: phase back down to 0.5.
    assert_eq!(interp.get(), px(5));
    interp.tick(5 * FX_SCALE / 10);
    // elapsed 2.0s: back at the start.
    assert_eq!(interp.get(), 0);
}

#[test]
fn quad_easing_squares_the_phase() {
    let mut interp: Interpolate<i64> = Interpolate::new(Easing::QuadIn, 0, FX_SCALE);
    interp.interpolate_to(px(100));
    interp.tick(FX_SCALE / 2);
    // QuadIn at phase 0.5 is 0.25.
    assert_eq!(interp.get(), px(25));
}

#[test]
fn smoothstep_is_exact_at_the_ends() {
    assert_eq!(Easing::SmoothStep.apply(0), 0);
    assert_eq!(Easing::SmoothStep.apply(FX_SCALE), FX_SCALE);
    // And symmetric in the middle.
    assert_eq!(Easing::SmoothStep.apply(FX_SCALE / 2), FX_SCALE / 2);
}

#[test]
fn vectors_interpolate_component_wise() {
    let mut interp: Interpolate<Vec2> =
        Interpolate::new(Easing::Linear, Vec2::new(0, 0), FX_SCALE);
    interp.interpolate_to(Vec2::new(px(10), px(20)));
    interp.tick(FX_SCALE / 2);
    assert_eq!(interp.get(), Vec2::new(px(5), px(10)));
    interp.tick(FX_SCALE);
    assert_eq!(interp.get(), Vec2::new(px(10), px(20)));
}

#[test]
fn colors_interpolate_per_channel() {
    let black = Rgba::new(0, 0, 0, FX_SCALE);
    let warm = Rgba::new(FX_SCALE, FX_SCALE / 2, 0, FX_SCALE);
    let mut interp: Interpolate<Rgba> = Interpolate::new(Easing::Linear, black, FX_SCALE);
    interp.interpolate_to(warm);
    interp.tick(FX_SCALE / 2);
    assert_eq!(interp.get(), Rgba::new(FX_SCALE / 2, FX_SCALE / 4, 0, FX_SCALE));
    interp.tick(FX_SCALE / 2);
    assert_eq!(interp.get(), warm);
}
