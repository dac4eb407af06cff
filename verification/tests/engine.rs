//! Propagation engine scenarios: container sizing, padding, opacity
//! composition, change detection, idempotence and malformed-hierarchy
//! detection.

use aoui::anchor::Anchor;
use aoui::dimension::Dimension;
use aoui::fixed::FX_SCALE;
use aoui::layout::{Alignment, FlexDir, Layout, LayoutControl};
use aoui::pipeline::{compute_aoui_transforms, Container, Transform2D, UiNode, UiTree};
use aoui::rect::RotatedRect;
use aoui::scaling::{SetEM, Size, Size2, SizeUnit};
use aoui::vec2::Vec2;

fn px(v: i64) -> i64 {
    v * FX_SCALE
}

fn surface(w: i64, h: i64) -> (RotatedRect, Vec2) {
    let dim = Vec2::new(px(w), px(h));
    (RotatedRect::root(dim), dim)
}

fn owned_node(w: i64, h: i64) -> UiNode {
    let mut node = UiNode::new();
    node.dimension = Dimension::owned(Size2::pixels(px(w), px(h)));
    node
}

fn span_container(margin: i64, padding: i64) -> UiNode {
    let mut node = owned_node(0, 0);
    node.container = Some(Container {
        layout: Layout::Span { direction: FlexDir::LeftToRight, alignment: Alignment::Center },
        margin: Size2::pixels(px(margin), px(margin)),
        padding: Size2::pixels(px(padding), px(padding)),
        range: None,
    });
    node
}

#[test]
fn stack_total_size_is_sum_plus_gaps() {
    // Children of primary sizes [10, 20, 30] with margin 5: total 70.
    let mut tree = UiTree::new();
    let cont = tree.spawn(span_container(5, 0));
    tree.spawn_child(cont, owned_node(10, 5));
    tree.spawn_child(cont, owned_node(20, 5));
    tree.spawn_child(cont, owned_node(30, 5));
    let (rect, dim) = surface(400, 400);
    let r = compute_aoui_transforms(&mut tree, &rect, dim, px(16));
    assert!(r.is_ok());
    assert_eq!(tree.get(cont).dimension.size, Vec2::new(px(70), px(5)));
}

#[test]
fn padding_expands_container_and_rescales_anchors() {
    // Content (100, 100) with padding (10, 10) reports (120, 120), and a
    // child anchor fraction of 0.5 maps to pixel offset 60 in the final
    // frame, not 50.
    let mut tree = UiTree::new();
    let cont = tree.spawn(span_container(0, 10));
    let child = tree.spawn_child(cont, owned_node(100, 100));
    let (rect, dim) = surface(400, 400);
    assert!(compute_aoui_transforms(&mut tree, &rect, dim, px(16)).is_ok());
    assert_eq!(tree.get(cont).dimension.size, Vec2::new(px(120), px(120)));
    // The container is centered on the surface, so its corner sits 60px
    // from its center; the child's 0.5 fraction lands on the center.
    assert_eq!(tree.get(cont).rect.anchor(Anchor::BottomLeft), Vec2::new(px(-60), px(-60)));
    assert_eq!(tree.get(child).rect.anchor(Anchor::Center), Vec2::new(0, 0));
}

#[test]
fn padding_offsets_cornered_children() {
    // Content (100, 100) with padding (50, 50): the first child's
    // bottom-left anchor lands padding pixels in from the container edge.
    let mut tree = UiTree::new();
    let cont = tree.spawn(span_container(0, 50));
    let mut child = owned_node(100, 100);
    child.transform = Transform2D::at_anchor(Anchor::BottomLeft);
    let child = tree.spawn_child(cont, child);
    let (rect, dim) = surface(400, 400);
    assert!(compute_aoui_transforms(&mut tree, &rect, dim, px(16)).is_ok());
    assert_eq!(tree.get(cont).dimension.size, Vec2::new(px(200), px(200)));
    // Container corner at (-100, -100); the child anchor sits 50px in.
    assert_eq!(tree.get(child).rect.anchor(Anchor::BottomLeft), Vec2::new(px(-50), px(-50)));
}

#[test]
fn opacity_composes_multiplicatively() {
    // Parent 0.5, child authored 0.4: child computed opacity 0.2.
    let mut tree = UiTree::new();
    let parent = tree.spawn(owned_node(100, 100));
    let child = tree.spawn_child(parent, owned_node(10, 10));
    tree.set_opacity(parent, FX_SCALE / 2, false);
    tree.set_opacity(child, 4 * FX_SCALE / 10, false);
    let (rect, dim) = surface(400, 400);
    assert!(compute_aoui_transforms(&mut tree, &rect, dim, px(16)).is_ok());
    assert_eq!(tree.get(parent).opacity.computed_opacity, FX_SCALE / 2);
    assert_eq!(tree.get(child).opacity.computed_opacity, 2 * FX_SCALE / 10);
}

#[test]
fn disabled_composes_by_or() {
    let mut tree = UiTree::new();
    let parent = tree.spawn(owned_node(100, 100));
    let child = tree.spawn_child(parent, owned_node(10, 10));
    tree.set_opacity(parent, FX_SCALE, true);
    let (rect, dim) = surface(400, 400);
    assert!(compute_aoui_transforms(&mut tree, &rect, dim, px(16)).is_ok());
    assert!(tree.get(child).opacity.computed_disabled);
    assert!(!tree.get(child).opacity.disabled);
}

#[test]
fn em_inherits_and_scales() {
    let mut tree = UiTree::new();
    let mut parent = owned_node(100, 100);
    parent.dimension = parent.dimension.with_em(SetEM::Ems(2 * FX_SCALE));
    let parent = tree.spawn(parent);
    let child = tree.spawn_child(parent, owned_node(10, 10));
    let (rect, dim) = surface(400, 400);
    assert!(compute_aoui_transforms(&mut tree, &rect, dim, px(16)).is_ok());
    assert_eq!(tree.get(parent).dimension.em, px(32));
    assert_eq!(tree.get(child).dimension.em, px(32));
}

#[test]
fn percent_sizes_resolve_against_parent() {
    let mut tree = UiTree::new();
    let mut node = UiNode::new();
    node.dimension = Dimension::owned(Size2::percent(FX_SCALE / 2, FX_SCALE / 4));
    let e = tree.spawn(node);
    let (rect, dim) = surface(200, 400);
    assert!(compute_aoui_transforms(&mut tree, &rect, dim, px(16)).is_ok());
    assert_eq!(tree.get(e).dimension.size, Vec2::new(px(100), px(100)));
}

#[test]
fn copied_dimension_takes_content_size() {
    let mut tree = UiTree::new();
    let e = tree.spawn(UiNode::new());
    tree.set_content_size(e, Vec2::new(px(33), px(44)));
    let (rect, dim) = surface(200, 200);
    assert!(compute_aoui_transforms(&mut tree, &rect, dim, px(16)).is_ok());
    assert_eq!(tree.get(e).dimension.size, Vec2::new(px(33), px(44)));
}

#[test]
fn second_pass_writes_nothing() {
    // Running the engine twice on an unchanged tree produces identical
    // rectangles and the second pass rewrites zero of them.
    let mut tree = UiTree::new();
    let cont = tree.spawn(span_container(5, 10));
    tree.spawn_child(cont, owned_node(10, 5));
    tree.spawn_child(cont, owned_node(20, 5));
    let plain = tree.spawn(owned_node(50, 50));
    tree.spawn_child(plain, owned_node(5, 5));
    let (rect, dim) = surface(400, 400);
    let first = compute_aoui_transforms(&mut tree, &rect, dim, px(16));
    assert!(first.is_ok());
    let rects: Vec<_> = (0..tree.len()).map(|e| tree.get(e).rect).collect();
    let second = compute_aoui_transforms(&mut tree, &rect, dim, px(16));
    assert_eq!(second, Ok(0));
    for e in 0..tree.len() {
        assert_eq!(tree.get(e).rect, rects[e]);
    }
}

#[test]
fn change_detection_counts_rewrites() {
    let mut tree = UiTree::new();
    let e = tree.spawn(owned_node(50, 50));
    let (rect, dim) = surface(400, 400);
    assert!(compute_aoui_transforms(&mut tree, &rect, dim, px(16)).is_ok());
    assert_eq!(compute_aoui_transforms(&mut tree, &rect, dim, px(16)), Ok(0));
    let mut t = Transform2D::at_anchor(Anchor::Center);
    t.offset = Size2::pixels(px(3), 0);
    tree.set_transform(e, t);
    assert_eq!(compute_aoui_transforms(&mut tree, &rect, dim, px(16)), Ok(1));
}

#[test]
fn mismatched_parent_is_fatal() {
    // A child recorded under one entity but listed among another's
    // children must abort the frame, not silently continue.
    let mut tree = UiTree::new();
    let a = tree.spawn(owned_node(50, 50));
    let b = tree.spawn(owned_node(50, 50));
    let c = tree.spawn_child(a, owned_node(10, 10));
    tree.add_child_unchecked(b, c);
    let (rect, dim) = surface(400, 400);
    let before: Vec<_> = (0..tree.len()).map(|e| tree.get(e).rect).collect();
    let r = compute_aoui_transforms(&mut tree, &rect, dim, px(16));
    assert!(r.is_err());
    // The fatal path leaves previously computed state untouched.
    for e in 0..tree.len() {
        assert_eq!(tree.get(e).rect, before[e]);
    }
}

#[test]
fn doubly_listed_child_is_fatal() {
    let mut tree = UiTree::new();
    let a = tree.spawn(owned_node(50, 50));
    let c = tree.spawn_child(a, owned_node(10, 10));
    tree.add_child_unchecked(a, c);
    let (rect, dim) = surface(400, 400);
    assert!(compute_aoui_transforms(&mut tree, &rect, dim, px(16)).is_err());
}

#[test]
fn dangling_child_handles_are_skipped() {
    // A recorded child that no longer exists is silently skipped.
    let mut tree = UiTree::new();
    let a = tree.spawn(owned_node(50, 50));
    tree.add_child_unchecked(a, 999);
    let (rect, dim) = surface(400, 400);
    assert!(compute_aoui_transforms(&mut tree, &rect, dim, px(16)).is_ok());
}

#[test]
fn ignore_layout_children_keep_their_anchor() {
    let mut tree = UiTree::new();
    let cont = tree.spawn(span_container(0, 0));
    tree.spawn_child(cont, owned_node(100, 100));
    let mut overlay = owned_node(10, 10);
    overlay.control = LayoutControl::IgnoreLayout;
    overlay.transform = Transform2D::at_anchor(Anchor::TopRight);
    let overlay = tree.spawn_child(cont, overlay);
    let (rect, dim) = surface(400, 400);
    assert!(compute_aoui_transforms(&mut tree, &rect, dim, px(16)).is_ok());
    // The overlay is excluded from placement: the container's size is the
    // one placed child, and the overlay hangs on the container's corner.
    assert_eq!(tree.get(cont).dimension.size, Vec2::new(px(100), px(100)));
    assert_eq!(
        tree.get(overlay).rect.anchor(Anchor::TopRight),
        tree.get(cont).rect.anchor(Anchor::TopRight),
    );
}

#[test]
fn range_restricts_placed_children() {
    let mut tree = UiTree::new();
    let mut cont = span_container(0, 0);
    if let Some(c) = cont.container.as_mut() {
        c.range = Some((0, 2));
    }
    let cont = tree.spawn(cont);
    tree.spawn_child(cont, owned_node(10, 5));
    tree.spawn_child(cont, owned_node(20, 5));
    tree.spawn_child(cont, owned_node(30, 5));
    let (rect, dim) = surface(400, 400);
    assert!(compute_aoui_transforms(&mut tree, &rect, dim, px(16)).is_ok());
    // Only the first two children are placed: total 30, not 60.
    assert_eq!(tree.get(cont).dimension.size, Vec2::new(px(30), px(5)));
}

#[test]
fn misconfigured_grid_is_skipped() {
    let mut tree = UiTree::new();
    let mut node = owned_node(40, 40);
    node.container = Some(Container {
        layout: Layout::Grid {
            columns: Vec::new(),
            row: Size::new(SizeUnit::Pixels, px(10)),
        },
        margin: Size2::zero(),
        padding: Size2::zero(),
        range: None,
    });
    let e = tree.spawn(node);
    tree.spawn_child(e, owned_node(10, 10));
    let (rect, dim) = surface(400, 400);
    assert!(compute_aoui_transforms(&mut tree, &rect, dim, px(16)).is_ok());
    // The layout operation is skipped: the node keeps its authored size.
    assert_eq!(tree.get(e).dimension.size, Vec2::new(px(40), px(40)));
}

#[test]
fn deep_mismatch_is_fatal() {
    // The mismatch sits two levels down: a grandchild recorded under one
    // branch but listed under another still aborts the frame.
    let mut tree = UiTree::new();
    let root = tree.spawn(owned_node(100, 100));
    let left = tree.spawn_child(root, owned_node(50, 50));
    let right = tree.spawn_child(root, owned_node(50, 50));
    let grand = tree.spawn_child(left, owned_node(10, 10));
    tree.add_child_unchecked(right, grand);
    let (rect, dim) = surface(400, 400);
    assert!(compute_aoui_transforms(&mut tree, &rect, dim, px(16)).is_err());
}
