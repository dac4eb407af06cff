//! Event flag and scrolling scenarios.

use aoui::anchor::Anchor;
use aoui::dsl::{em, percent, px as px_em, rem, AoUISpacialConsts, OneOrTwo, OptionX};
use aoui::events::{CursorAction, CursorFocus, EventFlags};
use aoui::fixed::FX_SCALE;
use aoui::layout::{Alignment, FlexDir};
use aoui::scaling::{SetEM, Size2};
use aoui::scroll::{
    scrolling_system, ScrollContent, ScrollDirection, ScrollOutcome, Scrolling,
};
use aoui::vec2::Vec2;

fn px(v: i64) -> i64 {
    v * FX_SCALE
}

#[test]
fn event_flags_combine_and_test() {
    let click = EventFlags::from_bits(EventFlags::LEFT_CLICK);
    let down = EventFlags::from_bits(EventFlags::LEFT_DOWN);
    let both = click.const_or(down);
    assert!(both.contains(click));
    assert!(both.intersects(down));
    assert!(!click.intersects(down));
}

#[test]
fn cursor_components_report_their_flag() {
    let focus = CursorFocus::new(EventFlags::from_bits(EventFlags::HOVER));
    assert!(focus.is(EventFlags::from_bits(EventFlags::HOVER)));
    assert!(!focus.is(EventFlags::from_bits(EventFlags::LEFT_DRAG)));
    assert!(focus.intersects(EventFlags::from_bits(
        EventFlags::HOVER | EventFlags::LEFT_PRESSED,
    )));
    let action = CursorAction::new(EventFlags::from_bits(EventFlags::LEFT_CLICK));
    assert_eq!(action.flags().0, EventFlags::LEFT_CLICK);
    assert!(!action.intersects(EventFlags::from_bits(EventFlags::HOVER)));
}

fn centered_content(w: i64, h: i64) -> ScrollContent {
    ScrollContent {
        size: Vec2::new(px(w), px(h)),
        em: px(16),
        anchor: Anchor::Center,
        parent_anchor: Anchor::Center,
        offset: Size2::zero(),
    }
}

#[test]
fn scrolling_clamps_and_reports_fraction() {
    // A 200x100 content inside a 100x100 view scrolled 10px right: the
    // offset moves and the position factor is 0.6 of the scrollable span.
    let contents = vec![centered_content(200, 100)];
    let r = scrolling_system(
        &Scrolling::x(),
        ScrollDirection::unit().get(),
        Vec2::new(px(100), px(100)),
        1,
        Anchor::Center,
        Vec2::new(0, 0),
        &contents,
        Vec2::new(px(10), 0),
        px(16),
    );
    assert_eq!(
        r,
        ScrollOutcome::Scrolled {
            offset: Vec2::new(px(10), 0),
            pipe: false,
            fraction: Some(6 * FX_SCALE / 10),
        },
    );
}

#[test]
fn scrolling_at_the_end_pipes_the_delta() {
    let contents = vec![centered_content(200, 100)];
    let r = scrolling_system(
        &Scrolling::x(),
        ScrollDirection::unit().get(),
        Vec2::new(px(100), px(100)),
        1,
        Anchor::Center,
        Vec2::new(px(50), 0),
        &contents,
        Vec2::new(px(10), 0),
        px(16),
    );
    assert_eq!(
        r,
        ScrollOutcome::Scrolled {
            offset: Vec2::new(px(50), 0),
            pipe: true,
            fraction: Some(FX_SCALE),
        },
    );
}

#[test]
fn vertical_scroll_folds_both_delta_axes() {
    let contents = vec![centered_content(100, 300)];
    let r = scrolling_system(
        &Scrolling::y(),
        ScrollDirection::unit().get(),
        Vec2::new(px(100), px(100)),
        1,
        Anchor::Center,
        Vec2::new(0, 0),
        &contents,
        Vec2::new(px(4), px(6)),
        px(16),
    );
    match r {
        ScrollOutcome::Scrolled { offset, .. } => {
            assert_eq!(offset, Vec2::new(0, px(10)));
        },
        other => panic!("expected a scroll, got {:?}", other),
    }
}

#[test]
fn misconfigured_scroll_regions_are_skipped() {
    let contents = vec![centered_content(200, 100)];
    let none = scrolling_system(
        &Scrolling::new(false, false, false, false),
        ScrollDirection::unit().get(),
        Vec2::new(px(100), px(100)),
        1,
        Anchor::Center,
        Vec2::new(0, 0),
        &contents,
        Vec2::new(px(10), 0),
        px(16),
    );
    assert_eq!(none, ScrollOutcome::NoAxis);
    let two = scrolling_system(
        &Scrolling::both(),
        ScrollDirection::unit().get(),
        Vec2::new(px(100), px(100)),
        2,
        Anchor::Center,
        Vec2::new(0, 0),
        &contents,
        Vec2::new(px(10), 0),
        px(16),
    );
    assert_eq!(two, ScrollOutcome::WrongChildCount);
    let offside = scrolling_system(
        &Scrolling::both(),
        ScrollDirection::unit().get(),
        Vec2::new(px(100), px(100)),
        1,
        Anchor::TopLeft,
        Vec2::new(0, 0),
        &contents,
        Vec2::new(px(10), 0),
        px(16),
    );
    assert_eq!(offside, ScrollOutcome::BufferNotCentered);
}

#[test]
fn scroll_direction_inverts_vertically() {
    let d = ScrollDirection::inverted(Vec2::new(FX_SCALE, FX_SCALE));
    assert_eq!(d.get(), Vec2::new(FX_SCALE, -FX_SCALE));
    let mut d2 = ScrollDirection::unit();
    d2.set(Vec2::new(px(2), px(2)));
    assert_eq!(d2.get(), Vec2::new(px(2), px(2)));
}

#[test]
fn spatial_constants_convert_where_meaningful() {
    assert_eq!(AoUISpacialConsts::Left.as_anchor(), Some(Anchor::CenterLeft));
    assert_eq!(AoUISpacialConsts::Center.as_alignment(), Some(Alignment::Center));
    assert_eq!(
        AoUISpacialConsts::TopToBottom.as_flex_dir(),
        Some(FlexDir::TopToBottom),
    );
    // A misconfigured conversion is a miss, not a crash.
    assert_eq!(AoUISpacialConsts::LeftToRight.as_anchor(), None);
    assert_eq!(AoUISpacialConsts::TopLeft.as_alignment(), None);
    assert_eq!(AoUISpacialConsts::Center.as_flex_dir(), None);
}

#[test]
fn font_size_helpers_build_settings() {
    assert_eq!(px_em(px(12)), SetEM::Pixels(px(12)));
    assert_eq!(em(2 * FX_SCALE), SetEM::Ems(2 * FX_SCALE));
    assert_eq!(rem(FX_SCALE), SetEM::Rems(FX_SCALE));
    // Whole-number percentages scale down by one hundred.
    assert_eq!(percent(px(40)), SetEM::Pixels(4 * FX_SCALE / 10));
}

#[test]
fn wrapper_types_hold_their_values() {
    let one: OneOrTwo<Vec2> = OneOrTwo(Vec2::new(1, 2));
    assert_eq!(one.into_inner(), Vec2::new(1, 2));
    let filled: OptionX<i64> = OptionX::Filled(5);
    assert!(filled.is_filled());
    assert_eq!(filled.take(), Some(5));
    let vacant: OptionX<i64> = OptionX::Vacant;
    assert_eq!(vacant.take(), None);
}
