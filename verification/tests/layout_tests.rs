//! Layout strategy scenarios, run directly against the placement
//! functions: spans in every direction, paragraph wrapping, grid cells.

use aoui::anchor::Anchor;
use aoui::fixed::FX_SCALE;
use aoui::layout::{
    Alignment, FlexDir, Layout, LayoutControl, LayoutInfo, LayoutItem,
};
use aoui::scaling::{Size, SizeUnit};
use aoui::vec2::Vec2;

fn px(v: i64) -> i64 {
    v * FX_SCALE
}

fn info(w: i64, h: i64, margin: i64) -> LayoutInfo {
    LayoutInfo {
        dimension: Vec2::new(px(w), px(h)),
        em: px(16),
        rem: px(16),
        margin: Vec2::new(px(margin), px(margin)),
    }
}

fn item(entity: usize, w: i64, h: i64) -> LayoutItem {
    LayoutItem {
        entity,
        anchor: Anchor::BottomLeft,
        dimension: Vec2::new(px(w), px(h)),
        control: LayoutControl::Normal,
    }
}

#[test]
fn hbox_places_left_to_right() {
    let layout = Layout::Span { direction: FlexDir::LeftToRight, alignment: Alignment::Bottom };
    let out = layout.place(&info(100, 100, 5), vec![item(0, 10, 5), item(1, 20, 5)]);
    assert_eq!(out.dimension, Vec2::new(px(35), px(5)));
    assert_eq!(out.entity_anchors[0], (0, Vec2::new(0, 0)));
    assert_eq!(out.entity_anchors[1], (1, Vec2::new(px(15), 0)));
}

#[test]
fn hspan_mirrors_right_to_left() {
    let layout = Layout::Span { direction: FlexDir::RightToLeft, alignment: Alignment::Bottom };
    let out = layout.place(&info(100, 100, 0), vec![item(0, 10, 5), item(1, 20, 5)]);
    assert_eq!(out.dimension, Vec2::new(px(30), px(5)));
    // The first child hugs the right edge, the second sits left of it.
    assert_eq!(out.entity_anchors[0], (0, Vec2::new(px(20), 0)));
    assert_eq!(out.entity_anchors[1], (1, Vec2::new(0, 0)));
}

#[test]
fn vbox_stacks_top_down() {
    let layout = Layout::Span { direction: FlexDir::TopToBottom, alignment: Alignment::Left };
    let out = layout.place(&info(100, 100, 0), vec![item(0, 5, 10), item(1, 5, 20)]);
    assert_eq!(out.dimension, Vec2::new(px(5), px(30)));
    // The first child occupies the top band.
    assert_eq!(out.entity_anchors[0], (0, Vec2::new(0, px(20))));
    assert_eq!(out.entity_anchors[1], (1, Vec2::new(0, 0)));
}

#[test]
fn cross_axis_alignment_offsets_small_children() {
    let layout = Layout::Span { direction: FlexDir::LeftToRight, alignment: Alignment::Top };
    let out = layout.place(&info(100, 100, 0), vec![item(0, 10, 5), item(1, 10, 10)]);
    // The shorter child is flush with the tall one's top.
    assert_eq!(out.entity_anchors[0].1, Vec2::new(0, px(5)));
    assert_eq!(out.entity_anchors[1].1, Vec2::new(px(10), 0));
}

#[test]
fn paragraph_wraps_at_the_container_width() {
    let out = Layout::Paragraph.place(
        &info(100, 100, 0),
        vec![item(0, 60, 10), item(1, 60, 10)],
    );
    assert_eq!(out.dimension, Vec2::new(px(100), px(20)));
    // First child on the top line, second wrapped below it.
    assert_eq!(out.entity_anchors[0], (0, Vec2::new(0, px(10))));
    assert_eq!(out.entity_anchors[1], (1, Vec2::new(0, 0)));
}

#[test]
fn paragraph_honors_line_break_markers() {
    let mut lb = item(9, 0, 20);
    lb.control = LayoutControl::Linebreak;
    let out = Layout::Paragraph.place(
        &info(100, 100, 0),
        vec![item(0, 30, 10), lb, item(1, 30, 10)],
    );
    // The break ends the first line with a 20-tall gap.
    assert_eq!(out.dimension, Vec2::new(px(100), px(30)));
    assert_eq!(out.entity_anchors[0].1, Vec2::new(0, px(20)));
    assert_eq!(out.entity_anchors[2].1, Vec2::new(0, 0));
}

#[test]
fn grid_fills_cells_row_major() {
    let layout = Layout::Grid {
        columns: vec![
            Size::new(SizeUnit::Pixels, px(50)),
            Size::new(SizeUnit::Pixels, px(50)),
        ],
        row: Size::new(SizeUnit::Pixels, px(20)),
    };
    let out = layout.place(
        &info(100, 100, 0),
        vec![item(0, 10, 10), item(1, 10, 10), item(2, 10, 10)],
    );
    assert_eq!(out.dimension, Vec2::new(px(100), px(40)));
    assert_eq!(out.entity_anchors[0], (0, Vec2::new(0, px(20))));
    assert_eq!(out.entity_anchors[1], (1, Vec2::new(px(50), px(20))));
    assert_eq!(out.entity_anchors[2], (2, Vec2::new(0, 0)));
}

#[test]
fn grid_tracks_resolve_like_dimensions() {
    // Percentage tracks resolve against the container dimension.
    let layout = Layout::Grid {
        columns: vec![
            Size::new(SizeUnit::Percent, FX_SCALE / 2),
            Size::new(SizeUnit::Percent, FX_SCALE / 2),
        ],
        row: Size::new(SizeUnit::Em, FX_SCALE),
    };
    let out = layout.place(&info(200, 100, 0), vec![item(0, 10, 10), item(1, 10, 10)]);
    assert_eq!(out.dimension, Vec2::new(px(200), px(16)));
    assert_eq!(out.entity_anchors[1].1.x, px(100));
}

#[test]
fn grid_without_columns_places_nothing() {
    let layout = Layout::Grid { columns: Vec::new(), row: Size::new(SizeUnit::Pixels, px(20)) };
    let out = layout.place(&info(100, 100, 0), vec![item(0, 10, 10)]);
    assert!(out.entity_anchors.is_empty());
    assert_eq!(out.dimension, Vec2::new(0, 0));
}

#[test]
fn empty_spans_have_zero_size() {
    let layout = Layout::Span { direction: FlexDir::LeftToRight, alignment: Alignment::Center };
    let out = layout.place(&info(100, 100, 5), Vec::new());
    assert_eq!(out.dimension, Vec2::new(0, 0));
    assert!(out.entity_anchors.is_empty());
}

#[test]
fn centered_anchors_land_mid_extent() {
    let layout = Layout::Span { direction: FlexDir::LeftToRight, alignment: Alignment::Bottom };
    let mut centered = item(0, 40, 10);
    centered.anchor = Anchor::Center;
    let out = layout.place(&info(100, 100, 0), vec![centered]);
    assert_eq!(out.entity_anchors[0].1, Vec2::new(px(20), px(5)));
}
