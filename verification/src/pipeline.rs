//! The transform propagation engine.
//!
//! A frame-scoped, queue-driven tree walk resolves every element's
//! dimension, offset, opacity, clip state and final rectangle from its
//! parent's already-resolved state, invoking the container layout strategy
//! where one is present.
//!
//! The walk is split into a pure resolution pass, which reads the tree and
//! produces one [`NodeOutput`] per reached entity, and a commit pass, which
//! stores the computed values and rewrites each rectangle only when it
//! changed. A malformed hierarchy (an entity whose recorded parent differs
//! from the entity that reached it, or one reached twice) aborts the frame
//! before anything is written.

use vstd::prelude::*;

use crate::anchor::Anchor;
use crate::dimension::{Dimension, DimensionSize};
use crate::fixed::{fx_add, fx_add_s, FX_HALF, FX_SCALE};
use crate::layout::{Layout, LayoutControl, LayoutInfo, LayoutItem};
use crate::opacity::Opacity;
use crate::rect::{Affine2, ParentInfo, RotatedRect};
use crate::scaling::{SetEM, Size2, SizeUnit};
use crate::vec2::{vadd_s, vdiv_s, vsub_s, Rot2, Vec2};

verus! {

/// The z bias an element without an explicit depth gets over its parent,
/// so that siblings paint in a deterministic order.
pub const Z_INCREMENT: i64 = 100;

/// The declarative placement of an element against its parent.
#[derive(Clone, Copy, Debug, PartialEq, Eq, Structural)]
pub struct Transform2D {
    /// The element's own attachment point.
    pub anchor: Anchor,
    /// The point on the parent to attach to; `Inherit` uses `anchor`.
    pub parent_anchor: Anchor,
    /// The pivot for rotation and scale; `Inherit` uses `anchor`.
    pub center: Anchor,
    /// Context-relative displacement from the anchor point.
    pub offset: Size2,
    /// Rotation about the pivot.
    pub rotation: Rot2,
    /// Scale about the pivot.
    pub scale: Vec2,
    /// Local depth bias.
    pub z: i64,
}

impl Transform2D {
    /// A transform that centers the element on its parent anchor.
    pub fn at_anchor(anchor: Anchor) -> (r: Transform2D)
        ensures
            r.anchor == anchor,
            r.parent_anchor is Inherit,
            r.center is Inherit,
            r.offset.units_spec() == (
                crate::scaling::SizeUnit::Pixels,
                crate::scaling::SizeUnit::Pixels,
            ),
            r.offset.raw_spec() == (Vec2 { x: 0, y: 0 }),
            r.rotation == (Rot2 { cos: FX_SCALE, sin: 0 }),
            r.scale == (Vec2 { x: FX_SCALE, y: FX_SCALE }),
            r.z == 0,
    {
        Transform2D {
            anchor,
            parent_anchor: Anchor::Inherit,
            center: Anchor::Inherit,
            offset: Size2::zero(),
            rotation: Rot2::identity(),
            scale: Vec2 { x: FX_SCALE, y: FX_SCALE },
            z: 0,
        }
    }

    /// The attachment point on the parent: `parent_anchor`, falling back
    /// on the element's own anchor.
    pub fn get_parent_anchor(&self) -> (r: Anchor)
        ensures
            r == self.parent_anchor.or_spec(self.anchor),
    {
        self.parent_anchor.or(self.anchor)
    }

    /// The pivot: `center`, falling back on the element's own anchor.
    pub fn get_center(&self) -> (r: Anchor)
        ensures
            r == self.center.or_spec(self.anchor),
    {
        self.center.or(self.anchor)
    }
}

impl Default for Transform2D {
    fn default() -> (r: Self)
        ensures
            r.anchor is Center,
            r.parent_anchor is Inherit,
            r.center is Inherit,
            r.offset.raw_spec() == (Vec2 { x: 0, y: 0 }),
            r.rotation == (Rot2 { cos: FX_SCALE, sin: 0 }),
            r.scale == (Vec2 { x: FX_SCALE, y: FX_SCALE }),
            r.z == 0,
    {
        Transform2D::at_anchor(Anchor::Center)
    }
}

/// Scissor state: whether this element clips its descendants, and the
/// affine of the nearest clipping ancestor, refreshed each pass.
#[derive(Clone, Copy, Debug, PartialEq, Eq, Structural)]
pub struct Clipping {
    pub clip: bool,
    pub global: Option<Affine2>,
}

impl Clipping {
    pub fn new(clip: bool) -> (r: Clipping)
        ensures
            r.clip == clip,
            r.global is None,
    {
        Clipping { clip, global: None }
    }
}

/// A container auto-arranges its children with a layout strategy.
#[derive(Clone, Debug)]
pub struct Container {
    /// The layout strategy.
    pub layout: Layout,
    /// Gap between neighboring children, context-relative.
    pub margin: Size2,
    /// Inset around the content, context-relative; doubled and added to
    /// the content size.
    pub padding: Size2,
    /// Half-open range of ordinal children fed to the strategy;
    /// out-of-range children keep their own anchors.
    pub range: Option<(usize, usize)>,
}

/// One element of the tree.
#[derive(Clone, Debug)]
pub struct UiNode {
    /// The recorded parent.
    pub parent: Option<usize>,
    /// The recorded children, in insertion order.
    pub children: Vec<usize>,
    pub transform: Transform2D,
    pub dimension: Dimension,
    pub opacity: Opacity,
    pub clipping: Clipping,
    pub container: Option<Container>,
    pub control: LayoutControl,
    /// The engine's output, overwritten only when it changes.
    pub rect: RotatedRect,
}

impl UiNode {
    /// A fresh parentless node: centered on its parent with no offset,
    /// rotation, scale bias or depth bias, a content-copied dimension with
    /// inherited font size, fully opaque and enabled, not clipping, and a
    /// zero rectangle.
    pub fn new() -> (r: UiNode)
        ensures
            r.parent is None,
            r.children@.len() == 0,
            r.container is None,
            r.control is Normal,
            r.transform == (Transform2D {
                anchor: Anchor::Center,
                parent_anchor: Anchor::Inherit,
                center: Anchor::Inherit,
                offset: Size2 {
                    x: SizeUnit::Pixels,
                    y: SizeUnit::Pixels,
                    raw: Vec2 { x: 0, y: 0 },
                },
                rotation: Rot2 { cos: FX_SCALE, sin: 0 },
                scale: Vec2 { x: FX_SCALE, y: FX_SCALE },
                z: 0,
            }),
            r.dimension == (Dimension {
                dim: DimensionSize::Copied,
                set_em: SetEM::Inherit,
                size: Vec2 { x: 0, y: 0 },
                em: 0,
            }),
            r.opacity == (Opacity {
                opacity: FX_SCALE,
                computed_opacity: FX_SCALE,
                disabled: false,
                computed_disabled: false,
                occluded: false,
            }),
            r.clipping == (Clipping { clip: false, global: None }),
            r.rect == (RotatedRect {
                affine: Affine2 {
                    rot: Rot2 { cos: FX_SCALE, sin: 0 },
                    scaled_dim: Vec2 { x: 0, y: 0 },
                    center: Vec2 { x: 0, y: 0 },
                    pivot: Vec2 { x: 0, y: 0 },
                },
                rotation: Rot2 { cos: FX_SCALE, sin: 0 },
                scale: Vec2 { x: FX_SCALE, y: FX_SCALE },
                z: 0,
            }),
    {
        UiNode {
            parent: None,
            children: Vec::new(),
            transform: Transform2D::at_anchor(Anchor::Center),
            dimension: Dimension::copied(),
            opacity: Opacity::opaque(),
            clipping: Clipping { clip: false, global: None },
            container: None,
            control: LayoutControl::Normal,
            rect: RotatedRect::root(Vec2 { x: 0, y: 0 }),
        }
    }
}

/// The arena of UI elements the engine walks.
#[derive(Clone, Debug)]
pub struct UiTree {
    pub nodes: Vec<UiNode>,
}

/// The fatal error of the engine: the traversal reached an entity whose
/// recorded parent is not the entity that reached it, or reached an entity
/// twice. Continuing would risk resolving an element against the wrong
/// parent state, so the whole frame is abandoned with the tree untouched.
#[derive(Clone, Copy, Debug, PartialEq, Eq, Structural)]
pub struct MalformedHierarchy;

/// Everything the engine computes for one entity in one frame.
#[derive(Clone, Copy, Debug, PartialEq, Eq, Structural)]
pub struct NodeOutput {
    pub rect: RotatedRect,
    pub size: Vec2,
    pub em: i64,
    pub computed_opacity: i64,
    pub computed_disabled: bool,
    pub clip_global: Option<Affine2>,
}

impl UiTree {
    /// An empty tree.
    pub fn new() -> (r: UiTree)
        ensures
            r.nodes@.len() == 0,
    {
        UiTree { nodes: Vec::new() }
    }

    /// The number of entities.
    pub fn len(&self) -> (r: usize)
        ensures
            r == self.nodes@.len(),
    {
        self.nodes.len()
    }

    /// Add a parentless node; its handle is returned.
    pub fn spawn(&mut self, node: UiNode) -> (e: usize)
        ensures
            e == old(self).nodes@.len(),
            final(self).nodes@ == old(self).nodes@.push(UiNode { parent: None, ..node }),
    {
        let e = self.nodes.len();
        self.nodes.push(UiNode { parent: None, ..node });
        e
    }

    /// Add a node as a child of `parent`, recording both sides of the
    /// relation consistently.
    pub fn spawn_child(&mut self, parent: usize, node: UiNode) -> (e: usize)
        requires
            parent < old(self).nodes@.len(),
        ensures
            e == old(self).nodes@.len(),
            final(self).nodes@.len() == old(self).nodes@.len() + 1,
            final(self).nodes@[e as int] == (UiNode { parent: Some(parent), ..node }),
            final(self).nodes@[parent as int].children@ == old(
                self,
            ).nodes@[parent as int].children@.push(e),
            final(self).nodes@[parent as int] == (UiNode {
                children: final(self).nodes@[parent as int].children,
                ..old(self).nodes@[parent as int]
            }),
            forall|j: int|
                0 <= j < old(self).nodes@.len() && j != parent as int ==> final(self).nodes@[j]
                    == old(self).nodes@[j],
    {
        let e = self.nodes.len();
        self.nodes.push(UiNode { parent: Some(parent), ..node });
        let p = &mut self.nodes[parent];
        p.children.push(e);
        e
    }

    /// Record `child` in `parent`'s child list without touching the
    /// child's own parent record. This can produce a malformed hierarchy;
    /// the engine detects and rejects such trees.
    pub fn add_child_unchecked(&mut self, parent: usize, child: usize)
        requires
            parent < old(self).nodes@.len(),
        ensures
            final(self).nodes@.len() == old(self).nodes@.len(),
            final(self).nodes@[parent as int].children@ == old(
                self,
            ).nodes@[parent as int].children@.push(child),
            final(self).nodes@[parent as int] == (UiNode {
                children: final(self).nodes@[parent as int].children,
                ..old(self).nodes@[parent as int]
            }),
            forall|j: int|
                0 <= j < old(self).nodes@.len() && j != parent as int ==> final(self).nodes@[j]
                    == old(self).nodes@[j],
    {
        let p = &mut self.nodes[parent];
        p.children.push(child);
    }

    /// Read a node.
    pub fn get(&self, e: usize) -> (r: &UiNode)
        requires
            e < self.nodes@.len(),
        ensures
            *r == self.nodes@[e as int],
    {
        &self.nodes[e]
    }

    /// Write the content-derived size of a copied dimension, as the
    /// external content systems do before each pass.
    pub fn set_content_size(&mut self, e: usize, size: Vec2)
        requires
            e < old(self).nodes@.len(),
        ensures
            final(self).nodes@ == old(self).nodes@.update(
                e as int,
                UiNode {
                    dimension: Dimension { size, ..old(self).nodes@[e as int].dimension },
                    ..old(self).nodes@[e as int]
                },
            ),
    {
        let node = &mut self.nodes[e];
        node.dimension.size = size;
    }

    /// Replace a node's transform.
    pub fn set_transform(&mut self, e: usize, transform: Transform2D)
        requires
            e < old(self).nodes@.len(),
        ensures
            final(self).nodes@ == old(self).nodes@.update(
                e as int,
                UiNode { transform, ..old(self).nodes@[e as int] },
            ),
    {
        let node = &mut self.nodes[e];
        node.transform = transform;
    }

    /// Replace a node's authored opacity and disabled flag.
    pub fn set_opacity(&mut self, e: usize, opacity: i64, disabled: bool)
        requires
            e < old(self).nodes@.len(),
        ensures
            final(self).nodes@ == old(self).nodes@.update(
                e as int,
                UiNode {
                    opacity: Opacity {
                        opacity,
                        disabled,
                        ..old(self).nodes@[e as int].opacity
                    },
                    ..old(self).nodes@[e as int]
                },
            ),
    {
        let node = &mut self.nodes[e];
        node.opacity.opacity = opacity;
        node.opacity.disabled = disabled;
    }
}

/// The info the root surface hands to every parentless entity.
pub open spec fn root_info_spec(root_rect: RotatedRect, root_dim: Vec2, rem: int) -> ParentInfo {
    ParentInfo {
        entity: None,
        rect: root_rect,
        anchor: None,
        dimension: root_dim,
        em: rem as i64,
        opacity: FX_SCALE,
        disabled: false,
        clip: None,
    }
}

/// The layout size estimate of a child: zero for a container whose own
/// dimension is content-derived (content depending on container layout is
/// estimated as empty, a documented limitation), else the child's own
/// estimate against the container's dimension.
pub open spec fn child_est_spec(node: UiNode, est_dim: Vec2, em: int, rem: int) -> Vec2 {
    let ec = node.dimension.resolve_em_spec(em, rem);
    if node.container is Some && node.dimension.dim is Copied {
        Vec2 { x: 0, y: 0 }
    } else {
        node.dimension.resolve_size_spec(est_dim, ec, rem)
    }
}

/// The layout item a child contributes.
pub open spec fn child_item_spec(c: usize, node: UiNode, est_dim: Vec2, em: int, rem: int)
    -> LayoutItem {
    LayoutItem {
        entity: c,
        anchor: node.transform.parent_anchor.or_spec(node.transform.anchor),
        dimension: child_est_spec(node, est_dim, em, rem),
        control: node.control,
    }
}

/// The gathering state over the first `i` recorded children of a
/// container: the items fed to the strategy, the children that keep their
/// own anchors, and the ordinal counter the range applies to.
pub open spec fn gather_spec(
    tree: UiTree,
    children: Seq<usize>,
    est_dim: Vec2,
    em: int,
    rem: int,
    range: (int, int),
    i: int,
) -> (Seq<LayoutItem>, Seq<usize>, int)
    decreases i,
{
    if i <= 0 {
        (Seq::empty(), Seq::empty(), 0)
    } else {
        let (items, others, idx) = gather_spec(tree, children, est_dim, em, rem, range, i - 1);
        let c = children[i - 1];
        if c >= tree.nodes@.len() {
            (items, others, idx)
        } else {
            let node = tree.nodes@[c as int];
            if node.control is IgnoreLayout {
                (items, others.push(c), idx)
            } else if range.0 <= idx < range.1 {
                (items.push(child_item_spec(c, node, est_dim, em, rem)), others, idx + 1)
            } else {
                (items, others.push(c), idx + 1)
            }
        }
    }
}

/// The ordinal range a container restricts placement to.
pub open spec fn range_spec(c: Container) -> (int, int) {
    match c.range {
        Some((a, b)) => (a as int, b as int),
        None => (0, usize::MAX as int),
    }
}

/// The depth of an element: its parent's depth plus its own bias, or plus
/// the fixed increment when it has none.
pub open spec fn z_spec(info: ParentInfo, t: Transform2D) -> int {
    if t.z != 0 {
        fx_add_s(info.rect.z as int, t.z as int)
    } else {
        fx_add_s(info.rect.z as int, Z_INCREMENT as int)
    }
}

/// Whether the container layout path applies to this node: it has a
/// container and the strategy is well-configured. A misconfigured
/// strategy (a grid without columns) is skipped for the frame and the node
/// is resolved as a plain element.
pub open spec fn container_active_spec(node: UiNode) -> bool {
    match node.container {
        Some(c) => c.layout.well_configured_spec(),
        None => false,
    }
}

/// Everything the engine computes for entity `e` reached with `info`.
pub open spec fn resolve_out_spec(tree: UiTree, e: usize, info: ParentInfo, rem: int)
    -> NodeOutput {
    let node = tree.nodes@[e as int];
    let em = node.dimension.resolve_em_spec(info.em as int, rem);
    let dimension = node.dimension.resolve_size_spec(info.dimension, em, rem);
    let offset = node.transform.offset.as_pixels_spec(info.dimension, em, rem);
    let opacity = node.opacity.composed_spec(info.opacity as int);
    let disabled = node.opacity.disabled || info.disabled;
    let z = z_spec(info, node.transform);
    if container_active_spec(node) {
        let c = node.container->Some_0;
        let est_dim = if node.dimension.dim is Owned {
            dimension
        } else {
            Vec2 { x: 0, y: 0 }
        };
        let (items, others, idx) = gather_spec(
            tree,
            node.children@,
            est_dim,
            em,
            rem,
            range_spec(c),
            node.children@.len() as int,
        );
        let margin = c.margin.as_pixels_spec(info.dimension, em, rem);
        let padding = c.padding.as_pixels_spec(info.dimension, em, rem);
        let linfo = LayoutInfo { dimension, em: em as i64, rem: rem as i64, margin };
        let content = c.layout.size_spec(linfo, items);
        let size = vadd_s(content, vadd_s(padding, padding));
        let rect = crate::rect::construct_spec(
            info,
            node.transform.parent_anchor,
            node.transform.anchor,
            offset,
            size,
            node.transform.center,
            node.transform.rotation,
            node.transform.scale,
            z,
        );
        NodeOutput {
            rect,
            size,
            em: em as i64,
            computed_opacity: opacity as i64,
            computed_disabled: disabled,
            clip_global: info.clip,
        }
    } else {
        let rect = crate::rect::construct_spec(
            info,
            node.transform.parent_anchor,
            node.transform.anchor,
            offset,
            dimension,
            node.transform.center,
            node.transform.rotation,
            node.transform.scale,
            z,
        );
        NodeOutput {
            rect,
            size: dimension,
            em: em as i64,
            computed_opacity: opacity as i64,
            computed_disabled: disabled,
            clip_global: info.clip,
        }
    }
}

/// The info entity `e` hands to its children, before any per-child anchor
/// override.
pub open spec fn child_base_info_spec(tree: UiTree, e: usize, info: ParentInfo, rem: int)
    -> ParentInfo {
    let node = tree.nodes@[e as int];
    let out = resolve_out_spec(tree, e, info, rem);
    ParentInfo {
        entity: Some(e),
        rect: out.rect,
        anchor: None,
        dimension: out.size,
        em: out.em,
        opacity: out.computed_opacity,
        disabled: out.computed_disabled,
        clip: if node.clipping.clip {
            Some(out.rect.affine)
        } else {
            info.clip
        },
    }
}

/// The container-assigned centered anchor fraction of the `k`-th placed
/// child: its placement pixel, inset by the padding, as a fraction of the
/// final size, recentered. On a degenerate (zero) final-size axis the
/// quotient is 0, so the recentered fraction is the lower corner, -0.5
/// (the degenerate-container guard).
pub open spec fn placed_frac_spec(pos: Vec2, padding: Vec2, size: Vec2) -> Vec2 {
    vsub_s(vdiv_s(vadd_s(pos, padding), size), Vec2 { x: FX_HALF, y: FX_HALF })
}

/// The queue entries entity `e` produces for its children.
pub open spec fn resolve_kids_spec(tree: UiTree, e: usize, info: ParentInfo, rem: int)
    -> Seq<(usize, ParentInfo)> {
    let node = tree.nodes@[e as int];
    let base = child_base_info_spec(tree, e, info, rem);
    if container_active_spec(node) {
        let c = node.container->Some_0;
        let em = node.dimension.resolve_em_spec(info.em as int, rem);
        let dimension = node.dimension.resolve_size_spec(info.dimension, em, rem);
        let est_dim = if node.dimension.dim is Owned {
            dimension
        } else {
            Vec2 { x: 0, y: 0 }
        };
        let (items, others, idx) = gather_spec(
            tree,
            node.children@,
            est_dim,
            em,
            rem,
            range_spec(c),
            node.children@.len() as int,
        );
        let margin = c.margin.as_pixels_spec(info.dimension, em, rem);
        let padding = c.padding.as_pixels_spec(info.dimension, em, rem);
        let linfo = LayoutInfo { dimension, em: em as i64, rem: rem as i64, margin };
        let size = vadd_s(c.layout.size_spec(linfo, items), vadd_s(padding, padding));
        let placed = Seq::new(
            items.len(),
            |k: int|
                (
                    items[k].entity,
                    ParentInfo {
                        anchor: Some(
                            placed_frac_spec(c.layout.pos_spec(linfo, items, k), padding, size),
                        ),
                        ..base
                    },
                ),
        );
        let rest = Seq::new(others.len(), |j: int| (others[j], base));
        placed + rest
    } else {
        Seq::new(node.children@.len(), |j: int| (node.children@[j], base))
    }
}

/// How many entities are still unvisited.
pub open spec fn count_false(s: Seq<bool>, i: int) -> int
    decreases i,
{
    if i <= 0 {
        0
    } else {
        count_false(s, i - 1) + if s[i - 1] {
            0int
        } else {
            1int
        }
    }
}

/// One frame of the engine as a state machine over a FIFO queue of
/// `(entity, info)` pairs: pairs naming despawned entities are skipped, a
/// parent mismatch or revisit aborts the frame, and every other pair
/// resolves its entity and enqueues its children.
pub open spec fn frame_run(
    tree: UiTree,
    rem: int,
    queue: Seq<(usize, ParentInfo)>,
    visited: Seq<bool>,
    outputs: Seq<Option<NodeOutput>>,
) -> Option<Seq<Option<NodeOutput>>>
    decreases count_false(visited, visited.len() as int), queue.len(),
    via frame_run_decreases
{
    if queue.len() == 0 {
        Some(outputs)
    } else {
        let (e, info) = queue[0];
        let rest = queue.subrange(1, queue.len() as int);
        if e >= tree.nodes@.len() || e >= visited.len() {
            frame_run(tree, rem, rest, visited, outputs)
        } else if tree.nodes@[e as int].parent != info.entity {
            None
        } else if visited[e as int] {
            None
        } else {
            frame_run(
                tree,
                rem,
                rest + resolve_kids_spec(tree, e, info, rem),
                visited.update(e as int, true),
                outputs.update(e as int, Some(resolve_out_spec(tree, e, info, rem))),
            )
        }
    }
}

#[via_fn]
proof fn frame_run_decreases(
    tree: UiTree,
    rem: int,
    queue: Seq<(usize, ParentInfo)>,
    visited: Seq<bool>,
    outputs: Seq<Option<NodeOutput>>,
) {
    if queue.len() > 0 {
        let (e, info) = queue[0];
        if e < tree.nodes@.len() && e < visited.len() && tree.nodes@[e as int].parent
            == info.entity && !visited[e as int] {
            lemma_count_false_update(visited, e as int, visited.len() as int);
            lemma_count_false_nonneg(visited.update(e as int, true), visited.len() as int);
            assert(visited.update(e as int, true).len() == visited.len());
            assert(count_false(
                visited.update(e as int, true),
                visited.update(e as int, true).len() as int,
            ) < count_false(visited, visited.len() as int));
        }
    }
}

/// The unvisited count is never negative.
proof fn lemma_count_false_nonneg(s: Seq<bool>, i: int)
    ensures
        0 <= count_false(s, i),
    decreases i,
{
    if i > 0 {
        lemma_count_false_nonneg(s, i - 1);
    }
}

/// Marking an unvisited entity strictly decreases the unvisited count.
proof fn lemma_count_false_update(s: Seq<bool>, e: int, i: int)
    requires
        0 <= e < s.len(),
        i <= s.len(),
        !s[e],
    ensures
        e < i ==> count_false(s.update(e, true), i) == count_false(s, i) - 1,
        e >= i ==> count_false(s.update(e, true), i) == count_false(s, i),
    decreases i,
{
    if i > 0 {
        lemma_count_false_update(s, e, i - 1);
    }
}

/// The initial queue: one root-info pair per parentless entity among the
/// first `i`.
pub open spec fn roots_spec(tree: UiTree, root: ParentInfo, i: int) -> Seq<(usize, ParentInfo)>
    decreases i,
{
    if i <= 0 {
        Seq::empty()
    } else {
        let prefix = roots_spec(tree, root, i - 1);
        if tree.nodes@[i - 1].parent is None {
            prefix.push(((i - 1) as usize, root))
        } else {
            prefix
        }
    }
}

/// The whole frame: run the state machine from the parentless entities.
pub open spec fn frame_spec(tree: UiTree, root_rect: RotatedRect, root_dim: Vec2, rem: int)
    -> Option<Seq<Option<NodeOutput>>> {
    let root = root_info_spec(root_rect, root_dim, rem);
    frame_run(
        tree,
        rem,
        roots_spec(tree, root, tree.nodes@.len() as int),
        Seq::new(tree.nodes@.len(), |j: int| false),
        Seq::new(tree.nodes@.len(), |j: int| None),
    )
}

/// A node after the commit pass stored `out` into it.
pub open spec fn commit_node_spec(n: UiNode, out: NodeOutput) -> UiNode {
    UiNode {
        dimension: Dimension { size: out.size, em: out.em, ..n.dimension },
        opacity: Opacity {
            computed_opacity: out.computed_opacity,
            computed_disabled: out.computed_disabled,
            occluded: false,
            ..n.opacity
        },
        clipping: Clipping { global: out.clip_global, ..n.clipping },
        rect: out.rect,
        ..n
    }
}

/// How many of the first `i` computed rectangles differ from the stored
/// ones (the writes the change-detection commit performs).
pub open spec fn count_writes(nodes: Seq<UiNode>, outs: Seq<Option<NodeOutput>>, i: int) -> int
    decreases i,
{
    if i <= 0 {
        0
    } else {
        count_writes(nodes, outs, i - 1) + match outs[i - 1] {
            Some(o) => if o.rect != nodes[i - 1].rect {
                1int
            } else {
                0int
            },
            None => 0int,
        }
    }
}

/// Whether every container node has an authored (owned) dimension.
///
/// A container whose own dimension is copied feeds its previous frame's
/// computed size back into its parent's estimates, so two successive
/// passes can disagree until the sizes settle; the idempotence law
/// excludes such nodes.
pub open spec fn containers_owned_spec(t: UiTree) -> bool {
    forall|e: int|
        0 <= e < t.nodes@.len() && (#[trigger] t.nodes@[e]).container is Some
            ==> t.nodes@[e].dimension.dim is Owned
}

/// Whether two nodes agree on every field the resolution pass reads: the
/// hierarchy records, the authored placement, opacity, dimension and clip
/// flags, and — for content-copied dimensions — the stored size.
pub open spec fn node_reads_agree(a: UiNode, b: UiNode) -> bool {
    &&& b.parent == a.parent
    &&& b.children@ == a.children@
    &&& b.transform == a.transform
    &&& b.opacity.opacity == a.opacity.opacity
    &&& b.opacity.disabled == a.opacity.disabled
    &&& b.dimension.dim == a.dimension.dim
    &&& b.dimension.set_em == a.dimension.set_em
    &&& (a.dimension.dim is Copied ==> b.dimension.size == a.dimension.size)
    &&& b.clipping.clip == a.clipping.clip
    &&& b.container == a.container
    &&& b.control == a.control
}

/// Whether two trees agree on everything the resolution pass reads.
pub open spec fn trees_reads_agree(a: UiTree, b: UiTree) -> bool {
    &&& b.nodes@.len() == a.nodes@.len()
    &&& forall|e: int|
        0 <= e < a.nodes@.len() ==> node_reads_agree(a.nodes@[e], #[trigger] b.nodes@[e])
}

/// Gathering reads only fields the trees agree on.
proof fn lemma_gather_agree(
    a: UiTree,
    b: UiTree,
    children: Seq<usize>,
    est_dim: Vec2,
    em: int,
    rem: int,
    range: (int, int),
    i: int,
)
    requires
        trees_reads_agree(a, b),
    ensures
        gather_spec(a, children, est_dim, em, rem, range, i) == gather_spec(
            b,
            children,
            est_dim,
            em,
            rem,
            range,
            i,
        ),
    decreases i,
{
    if i > 0 {
        lemma_gather_agree(a, b, children, est_dim, em, rem, range, i - 1);
        let c = children[i - 1];
        if (c as int) < a.nodes@.len() {
            assert(node_reads_agree(a.nodes@[c as int], b.nodes@[c as int]));
            assert(child_item_spec(c, a.nodes@[c as int], est_dim, em, rem) == child_item_spec(
                c,
                b.nodes@[c as int],
                est_dim,
                em,
                rem,
            ));
        }
    }
}

/// Resolving one entity reads only fields the trees agree on.
proof fn lemma_resolve_agree(a: UiTree, b: UiTree, e: usize, info: ParentInfo, rem: int)
    requires
        trees_reads_agree(a, b),
        e < a.nodes@.len(),
    ensures
        resolve_out_spec(a, e, info, rem) == resolve_out_spec(b, e, info, rem),
        resolve_kids_spec(a, e, info, rem) == resolve_kids_spec(b, e, info, rem),
{
    let na = a.nodes@[e as int];
    let nb = b.nodes@[e as int];
    assert(node_reads_agree(na, nb));
    assert(container_active_spec(na) == container_active_spec(nb));
    let em = na.dimension.resolve_em_spec(info.em as int, rem);
    let dimension = na.dimension.resolve_size_spec(info.dimension, em, rem);
    assert(nb.dimension.resolve_size_spec(info.dimension, em, rem) == dimension);
    if container_active_spec(na) {
        let c = na.container->Some_0;
        let est_dim = if na.dimension.dim is Owned {
            dimension
        } else {
            Vec2 { x: 0, y: 0 }
        };
        lemma_gather_agree(
            a,
            b,
            na.children@,
            est_dim,
            em,
            rem,
            range_spec(c),
            na.children@.len() as int,
        );
    }
    assert(resolve_out_spec(a, e, info, rem) == resolve_out_spec(b, e, info, rem));
    assert(child_base_info_spec(a, e, info, rem) == child_base_info_spec(b, e, info, rem));
    assert(resolve_kids_spec(a, e, info, rem) =~= resolve_kids_spec(b, e, info, rem));
}

/// The whole frame state machine reads only fields the trees agree on.
proof fn lemma_frame_run_agree(
    a: UiTree,
    b: UiTree,
    rem: int,
    queue: Seq<(usize, ParentInfo)>,
    visited: Seq<bool>,
    outputs: Seq<Option<NodeOutput>>,
)
    requires
        trees_reads_agree(a, b),
    ensures
        frame_run(a, rem, queue, visited, outputs) == frame_run(b, rem, queue, visited, outputs),
    decreases count_false(visited, visited.len() as int), queue.len(),
{
    lemma_count_false_nonneg(visited, visited.len() as int);
    if queue.len() > 0 {
        let (e, info) = queue[0];
        let rest = queue.subrange(1, queue.len() as int);
        if e >= a.nodes@.len() || e >= visited.len() {
            lemma_frame_run_agree(a, b, rem, rest, visited, outputs);
        } else if a.nodes@[e as int].parent != info.entity {
            assert(node_reads_agree(a.nodes@[e as int], b.nodes@[e as int]));
        } else if visited[e as int] {
        } else {
            assert(node_reads_agree(a.nodes@[e as int], b.nodes@[e as int]));
            lemma_resolve_agree(a, b, e, info, rem);
            lemma_count_false_update(visited, e as int, visited.len() as int);
            lemma_count_false_nonneg(visited.update(e as int, true), visited.len() as int);
            assert(visited.update(e as int, true).len() == visited.len());
            lemma_frame_run_agree(
                a,
                b,
                rem,
                rest + resolve_kids_spec(a, e, info, rem),
                visited.update(e as int, true),
                outputs.update(e as int, Some(resolve_out_spec(a, e, info, rem))),
            );
        }
    }
}

/// The initial queue reads only the parent records.
proof fn lemma_roots_agree(a: UiTree, b: UiTree, root: ParentInfo, i: int)
    requires
        trees_reads_agree(a, b),
        i <= a.nodes@.len(),
    ensures
        roots_spec(a, root, i) == roots_spec(b, root, i),
    decreases i,
{
    if i > 0 {
        lemma_roots_agree(a, b, root, i - 1);
        assert(node_reads_agree(a.nodes@[i - 1], b.nodes@[i - 1]));
    }
}

/// Along a frame run over a tree whose containers are owned, every
/// output recorded for a content-copied entity carries exactly the size
/// already stored on that entity.
proof fn lemma_frame_run_copied_sizes(
    t: UiTree,
    rem: int,
    queue: Seq<(usize, ParentInfo)>,
    visited: Seq<bool>,
    outputs: Seq<Option<NodeOutput>>,
)
    requires
        containers_owned_spec(t),
        visited.len() == outputs.len(),
        frame_run(t, rem, queue, visited, outputs) is Some,
        forall|e: int|
            0 <= e < outputs.len() && e < t.nodes@.len() && (#[trigger] outputs[e]) is Some
                && t.nodes@[e].dimension.dim is Copied ==> outputs[e]->Some_0.size
                == t.nodes@[e].dimension.size,
    ensures
        forall|e: int|
            0 <= e < frame_run(t, rem, queue, visited, outputs)->Some_0.len() && e
                < t.nodes@.len() && (#[trigger] frame_run(t, rem, queue, visited, outputs)->Some_0[e]) is Some
                && t.nodes@[e].dimension.dim is Copied ==> frame_run(
                t,
                rem,
                queue,
                visited,
                outputs,
            )->Some_0[e]->Some_0.size == t.nodes@[e].dimension.size,
    decreases count_false(visited, visited.len() as int), queue.len(),
{
    lemma_count_false_nonneg(visited, visited.len() as int);
    if queue.len() > 0 {
        let (e, info) = queue[0];
        let rest = queue.subrange(1, queue.len() as int);
        if e >= t.nodes@.len() || e >= visited.len() {
            lemma_frame_run_copied_sizes(t, rem, rest, visited, outputs);
        } else if t.nodes@[e as int].parent != info.entity {
        } else if visited[e as int] {
        } else {
            let out = resolve_out_spec(t, e, info, rem);
            if t.nodes@[e as int].dimension.dim is Copied {
                assert(!container_active_spec(t.nodes@[e as int]));
                assert(out.size == t.nodes@[e as int].dimension.size);
            }
            let outputs2 = outputs.update(e as int, Some(out));
            assert forall|e2: int|
                0 <= e2 < outputs2.len() && e2 < t.nodes@.len() && (#[trigger] outputs2[e2]) is Some
                    && t.nodes@[e2].dimension.dim is Copied implies outputs2[e2]->Some_0.size
                == t.nodes@[e2].dimension.size by {
                if e2 != e as int {
                    assert(outputs2[e2] == outputs[e2]);
                }
            }
            lemma_count_false_update(visited, e as int, visited.len() as int);
            lemma_count_false_nonneg(visited.update(e as int, true), visited.len() as int);
            assert(visited.update(e as int, true).len() == visited.len());
            lemma_frame_run_copied_sizes(
                t,
                rem,
                rest + resolve_kids_spec(t, e, info, rem),
                visited.update(e as int, true),
                outputs.update(e as int, Some(out)),
            );
        }
    }
}

/// A committed tree: every entity the frame reached holds its computed
/// output, every other entity is untouched.
pub open spec fn committed_spec(t0: UiTree, outs: Seq<Option<NodeOutput>>, t1: UiTree) -> bool {
    &&& outs.len() == t0.nodes@.len()
    &&& t1.nodes@.len() == t0.nodes@.len()
    &&& forall|j: int|
        0 <= j < t0.nodes@.len() ==> t1.nodes@[j] == (match outs[j] {
            Some(o) => commit_node_spec(t0.nodes@[j], o),
            None => t0.nodes@[j],
        })
}

/// After a commit, no computed rectangle differs from the stored one.
proof fn lemma_count_writes_zero(nodes: Seq<UiNode>, outs: Seq<Option<NodeOutput>>, i: int)
    requires
        i <= nodes.len(),
        i <= outs.len(),
        forall|j: int|
            0 <= j < i && (#[trigger] outs[j]) is Some ==> nodes[j].rect == outs[j]->Some_0.rect,
    ensures
        count_writes(nodes, outs, i) == 0,
    decreases i,
{
    if i > 0 {
        lemma_count_writes_zero(nodes, outs, i - 1);
    }
}

/// Idempotence of the propagation engine: on an unchanged input tree
/// whose containers have authored dimensions, a second pass computes
/// bit-identical outputs — the same rectangle, size, font and opacity for
/// every entity — and its change-detection commit rewrites zero
/// rectangles.
///
/// `t0` is the tree before the first pass, `t1` the tree after the first
/// pass's commit (as [`compute_aoui_transforms`] ensures it).
pub proof fn lemma_propagation_idempotent(
    t0: UiTree,
    t1: UiTree,
    root_rect: RotatedRect,
    root_dim: Vec2,
    rem: int,
)
    requires
        containers_owned_spec(t0),
        frame_spec(t0, root_rect, root_dim, rem) is Some,
        committed_spec(t0, frame_spec(t0, root_rect, root_dim, rem)->Some_0, t1),
    ensures
        frame_spec(t1, root_rect, root_dim, rem) == frame_spec(t0, root_rect, root_dim, rem),
        count_writes(
            t1.nodes@,
            frame_spec(t0, root_rect, root_dim, rem)->Some_0,
            t1.nodes@.len() as int,
        ) == 0,
{
    let n = t0.nodes@.len() as int;
    let root = root_info_spec(root_rect, root_dim, rem);
    let q0 = roots_spec(t0, root, n);
    let v0 = Seq::new(n as nat, |j: int| false);
    let o0 = Seq::new(n as nat, |j: int| None::<NodeOutput>);
    let outs = frame_spec(t0, root_rect, root_dim, rem)->Some_0;

    lemma_frame_run_copied_sizes(t0, rem, q0, v0, o0);
    assert(outs.len() == n) by {
        lemma_frame_run_output_len(t0, rem, q0, v0, o0);
    }

    assert(trees_reads_agree(t0, t1)) by {
        assert forall|e: int| 0 <= e < n implies node_reads_agree(
            t0.nodes@[e],
            #[trigger] t1.nodes@[e],
        ) by {
            match outs[e] {
                Some(o) => {
                    assert(t1.nodes@[e] == commit_node_spec(t0.nodes@[e], o));
                    if t0.nodes@[e].dimension.dim is Copied {
                        assert(o.size == t0.nodes@[e].dimension.size);
                    }
                },
                None => {},
            }
        }
    }

    lemma_roots_agree(t0, t1, root, n);
    assert(Seq::new(t1.nodes@.len(), |j: int| false) =~= v0);
    assert(Seq::new(t1.nodes@.len(), |j: int| None::<NodeOutput>) =~= o0);
    lemma_frame_run_agree(t0, t1, rem, q0, v0, o0);
    assert(frame_spec(t1, root_rect, root_dim, rem) == frame_spec(t0, root_rect, root_dim, rem));

    assert forall|j: int| 0 <= j < n && (#[trigger] outs[j]) is Some implies t1.nodes@[j].rect
        == outs[j]->Some_0.rect by {
        assert(t1.nodes@[j] == commit_node_spec(t0.nodes@[j], outs[j]->Some_0));
    }
    lemma_count_writes_zero(t1.nodes@, outs, n);
}

/// The frame's output sequence keeps the length it started with.
proof fn lemma_frame_run_output_len(
    t: UiTree,
    rem: int,
    queue: Seq<(usize, ParentInfo)>,
    visited: Seq<bool>,
    outputs: Seq<Option<NodeOutput>>,
)
    requires
        visited.len() == outputs.len(),
        frame_run(t, rem, queue, visited, outputs) is Some,
    ensures
        frame_run(t, rem, queue, visited, outputs)->Some_0.len() == outputs.len(),
    decreases count_false(visited, visited.len() as int), queue.len(),
{
    lemma_count_false_nonneg(visited, visited.len() as int);
    if queue.len() > 0 {
        let (e, info) = queue[0];
        let rest = queue.subrange(1, queue.len() as int);
        if e >= t.nodes@.len() || e >= visited.len() {
            lemma_frame_run_output_len(t, rem, rest, visited, outputs);
        } else if t.nodes@[e as int].parent != info.entity {
        } else if visited[e as int] {
        } else {
            lemma_count_false_update(visited, e as int, visited.len() as int);
            lemma_count_false_nonneg(visited.update(e as int, true), visited.len() as int);
            assert(visited.update(e as int, true).len() == visited.len());
            lemma_frame_run_output_len(
                t,
                rem,
                rest + resolve_kids_spec(t, e, info, rem),
                visited.update(e as int, true),
                outputs.update(e as int, Some(resolve_out_spec(t, e, info, rem))),
            );
        }
    }
}

/// A consistent hierarchy: every live recorded child of every entity
/// records that entity as its parent, is not the entity itself, and is
/// listed only once.
pub open spec fn hierarchy_consistent_spec(t: UiTree) -> bool {
    &&& forall|e: int, i: int|
        0 <= e < t.nodes@.len() && 0 <= i < t.nodes@[e].children@.len() && (
        #[trigger] t.nodes@[e].children@[i]) < t.nodes@.len() ==> t.nodes@[t.nodes@[e].children@[i] as int].parent
            == Some(e as usize) && t.nodes@[e].children@[i] != e
    &&& forall|e: int, i: int, j: int|
        0 <= e < t.nodes@.len() && 0 <= i < j < t.nodes@[e].children@.len() && (
        #[trigger] t.nodes@[e].children@[i]) < t.nodes@.len() ==> t.nodes@[e].children@[i] != (
        #[trigger] t.nodes@[e].children@[j])
}

/// The invariants a queue state keeps while walking a consistent
/// hierarchy: every pair matches its entity's recorded parent, names an
/// unvisited entity at most once, and descends from a visited parent;
/// and visited entities have visited parents.
pub open spec fn walk_inv_spec(
    t: UiTree,
    queue: Seq<(usize, ParentInfo)>,
    visited: Seq<bool>,
) -> bool {
    &&& visited.len() == t.nodes@.len()
    &&& forall|j: int|
        0 <= j < queue.len() && (#[trigger] queue[j]).0 < t.nodes@.len()
            ==> t.nodes@[queue[j].0 as int].parent == queue[j].1.entity
    &&& forall|j: int|
        0 <= j < queue.len() && (#[trigger] queue[j]).0 < t.nodes@.len()
            ==> !visited[queue[j].0 as int]
    &&& forall|j1: int, j2: int|
        0 <= j1 < j2 < queue.len() && (#[trigger] queue[j1]).0 == (#[trigger] queue[j2]).0
            ==> queue[j1].0 >= t.nodes@.len()
    &&& forall|j: int|
        0 <= j < queue.len() && (#[trigger] queue[j]).1.entity is Some ==> ((queue[j].1.entity->Some_0
            as int) < t.nodes@.len() && visited[queue[j].1.entity->Some_0 as int])
    &&& forall|x: int|
        0 <= x < t.nodes@.len() && #[trigger] visited[x] && t.nodes@[x].parent is Some ==> ((
        t.nodes@[x].parent->Some_0 as int) < t.nodes@.len() && visited[t.nodes@[x].parent->Some_0 as int])
}

/// Walking a consistent hierarchy from a sound state never aborts.
proof fn lemma_frame_run_completes(
    t: UiTree,
    rem: int,
    queue: Seq<(usize, ParentInfo)>,
    visited: Seq<bool>,
    outputs: Seq<Option<NodeOutput>>,
)
    requires
        hierarchy_consistent_spec(t),
        walk_inv_spec(t, queue, visited),
    ensures
        frame_run(t, rem, queue, visited, outputs) is Some,
    decreases count_false(visited, visited.len() as int), queue.len(),
{
    lemma_count_false_nonneg(visited, visited.len() as int);
    if queue.len() > 0 {
        let (e, info) = queue[0];
        let rest = queue.subrange(1, queue.len() as int);
        if e >= t.nodes@.len() || e >= visited.len() {
            assert(walk_inv_spec(t, rest, visited)) by {
                assert(forall|j: int|
                    0 <= j < rest.len() ==> #[trigger] rest[j] == queue[j + 1]);
            }
            lemma_frame_run_completes(t, rem, rest, visited, outputs);
        } else {
            assert(t.nodes@[e as int].parent == info.entity);
            assert(!visited[e as int]);
            let kids = resolve_kids_spec(t, e, info, rem);
            let next = rest + kids;
            let visited2 = visited.update(e as int, true);
            lemma_count_false_update(visited, e as int, visited.len() as int);
            lemma_count_false_nonneg(visited2, visited.len() as int);
            assert(visited2.len() == visited.len());
            assert(forall|j: int| 0 <= j < rest.len() ==> #[trigger] rest[j] == queue[j + 1]);
            lemma_resolve_kids_shape(t, e, info, rem);
            assert(walk_inv_spec(t, next, visited2)) by {
                assert forall|j: int|
                    0 <= j < next.len() && (#[trigger] next[j]).0 < t.nodes@.len() implies
                    t.nodes@[next[j].0 as int].parent == next[j].1.entity && !visited2[next[j].0 as int] by {
                    if j < rest.len() {
                        assert(next[j] == queue[j + 1]);
                        assert(next[j].0 != e);
                    } else {
                        let c = next[j].0;
                        assert(next[j] == kids[j - rest.len()]);
                        assert(c != e);
                        if visited[c as int] {
                            assert(t.nodes@[c as int].parent == Some(e));
                            assert(visited[e as int]);
                        }
                    }
                }
                assert forall|j1: int, j2: int|
                    0 <= j1 < j2 < next.len() && (#[trigger] next[j1]).0 == (
                    #[trigger] next[j2]).0 implies next[j1].0 >= t.nodes@.len() by {
                    if next[j1].0 < t.nodes@.len() {
                        if j2 < rest.len() {
                            assert(next[j1] == queue[j1 + 1] && next[j2] == queue[j2 + 1]);
                        } else if j1 < rest.len() {
                            let c = next[j2].0;
                            assert(next[j2] == kids[j2 - rest.len()]);
                            assert(next[j1] == queue[j1 + 1]);
                            assert(t.nodes@[c as int].parent == Some(e));
                            assert(queue[j1 + 1].1.entity == Some(e));
                            assert(visited[e as int]);
                        } else {
                            assert(next[j1] == kids[j1 - rest.len()]);
                            assert(next[j2] == kids[j2 - rest.len()]);
                        }
                    }
                }
                assert forall|j: int|
                    0 <= j < next.len() && (#[trigger] next[j]).1.entity is Some implies ((
                next[j].1.entity->Some_0 as int) < t.nodes@.len() && visited2[next[j].1.entity->Some_0 as int]) by {
                    if j < rest.len() {
                        assert(next[j] == queue[j + 1]);
                    } else {
                        assert(next[j] == kids[j - rest.len()]);
                        assert(kids[j - rest.len()].1.entity == Some(e));
                    }
                }
            }
            lemma_frame_run_completes(t, rem, next, visited2, outputs.update(
                e as int,
                Some(resolve_out_spec(t, e, info, rem)),
            ));
        }
    }
}

/// Gathering keeps the children distinct: every gathered entity stems
/// from a recorded child, and no live entity appears twice across the
/// items and the pass-through list.
proof fn lemma_gather_distinct(
    t: UiTree,
    children: Seq<usize>,
    est_dim: Vec2,
    em: int,
    rem: int,
    range: (int, int),
    i: int,
)
    requires
        0 <= i <= children.len(),
        forall|i1: int, i2: int|
            0 <= i1 < i2 < children.len() && (#[trigger] children[i1]) == (
            #[trigger] children[i2]) ==> children[i1] >= t.nodes@.len(),
    ensures
        ({
            let (items, others, idx) = gather_spec(t, children, est_dim, em, rem, range, i);
            &&& forall|k: int|
                0 <= k < items.len() ==> exists|ci: int|
                    0 <= ci < i && children[ci] == (#[trigger] items[k]).entity
            &&& forall|k: int|
                0 <= k < others.len() ==> exists|ci: int|
                    0 <= ci < i && children[ci] == #[trigger] others[k]
            &&& forall|k: int| 0 <= k < items.len() ==> ((#[trigger] items[k]).entity as int) < t.nodes@.len()
            &&& forall|k: int| 0 <= k < others.len() ==> ((#[trigger] others[k]) as int) < t.nodes@.len()
            &&& forall|k1: int, k2: int|
                0 <= k1 < k2 < items.len() ==> (#[trigger] items[k1]).entity != (
                #[trigger] items[k2]).entity
            &&& forall|k1: int, k2: int|
                0 <= k1 < k2 < others.len() ==> (#[trigger] others[k1]) != (#[trigger] others[k2])
            &&& forall|k1: int, k2: int|
                0 <= k1 < items.len() && 0 <= k2 < others.len() ==> (#[trigger] items[k1]).entity
                    != (#[trigger] others[k2])
        }),
    decreases i,
{
    if i > 0 {
        lemma_gather_distinct(t, children, est_dim, em, rem, range, i - 1);
        let (items, others, idx) = gather_spec(t, children, est_dim, em, rem, range, i);
        let (pitems, pothers, pidx) = gather_spec(t, children, est_dim, em, rem, range, i - 1);
        let c = children[i - 1];
        if (c as int) < t.nodes@.len() {
            // The new child is distinct from everything gathered before:
            // an earlier occurrence would be a duplicate recorded child.
            assert forall|k: int| 0 <= k < pitems.len() implies (#[trigger] pitems[k]).entity
                != c by {
                let ci = choose|ci: int|
                    0 <= ci < i - 1 && children[ci] == (#[trigger] pitems[k]).entity;
                assert(children[ci] == pitems[k].entity);
            }
            assert forall|k: int| 0 <= k < pothers.len() implies (#[trigger] pothers[k]) != c by {
                let ci = choose|ci: int|
                    0 <= ci < i - 1 && children[ci] == (#[trigger] pothers[k]);
                assert(children[ci] == pothers[k]);
            }
        }
    }
}

/// Shape of the enqueued children: every entry names a live recorded
/// child of the entity exactly once, and carries the entity as its parent
/// info.
proof fn lemma_resolve_kids_shape(t: UiTree, e: usize, info: ParentInfo, rem: int)
    requires
        e < t.nodes@.len(),
        hierarchy_consistent_spec(t),
    ensures
        forall|k: int|
            0 <= k < resolve_kids_spec(t, e, info, rem).len() ==> (#[trigger] resolve_kids_spec(
                t,
                e,
                info,
                rem,
            )[k]).1.entity == Some(e),
        forall|k: int|
            0 <= k < resolve_kids_spec(t, e, info, rem).len() && (#[trigger] resolve_kids_spec(
                t,
                e,
                info,
                rem,
            )[k]).0 < t.nodes@.len() ==> t.nodes@[resolve_kids_spec(t, e, info, rem)[k].0 as int].parent
                == Some(e) && resolve_kids_spec(t, e, info, rem)[k].0 != e,
        forall|k1: int, k2: int|
            0 <= k1 < k2 < resolve_kids_spec(t, e, info, rem).len() && (
            #[trigger] resolve_kids_spec(t, e, info, rem)[k1]).0 == (#[trigger] resolve_kids_spec(
                t,
                e,
                info,
                rem,
            )[k2]).0 ==> resolve_kids_spec(t, e, info, rem)[k1].0 >= t.nodes@.len(),
{
    let node = t.nodes@[e as int];
    let kids = resolve_kids_spec(t, e, info, rem);
    if container_active_spec(node) {
        let cont = node.container->Some_0;
        let em2 = node.dimension.resolve_em_spec(info.em as int, rem);
        let dimension = node.dimension.resolve_size_spec(info.dimension, em2, rem);
        let est_dim = if node.dimension.dim is Owned {
            dimension
        } else {
            Vec2 { x: 0, y: 0 }
        };
        let n_children = node.children@.len() as int;
        let (items, others, idx) = gather_spec(
            t,
            node.children@,
            est_dim,
            em2,
            rem,
            range_spec(cont),
            n_children,
        );
        lemma_gather_distinct(
            t,
            node.children@,
            est_dim,
            em2,
            rem,
            range_spec(cont),
            n_children,
        );
        assert forall|k: int|
            0 <= k < kids.len() && (#[trigger] kids[k]).0 < t.nodes@.len() implies
            t.nodes@[kids[k].0 as int].parent == Some(e) && kids[k].0 != e by {
            if k < items.len() {
                let ci = choose|ci: int|
                    0 <= ci < n_children && node.children@[ci] == (#[trigger] items[k]).entity;
                assert(node.children@[ci] == kids[k].0);
            } else {
                let k2 = k - items.len();
                let ci = choose|ci: int|
                    0 <= ci < n_children && node.children@[ci] == #[trigger] others[k2];
                assert(node.children@[ci] == kids[k].0);
            }
        }
        assert forall|k1: int, k2: int|
            0 <= k1 < k2 < kids.len() && (#[trigger] kids[k1]).0 == (#[trigger] kids[k2]).0
            implies kids[k1].0 >= t.nodes@.len() by {
            if k1 < items.len() && k2 < items.len() {
                assert(items[k1].entity != items[k2].entity);
            } else if k1 < items.len() {
                assert(items[k1].entity != others[k2 - items.len()]);
            } else {
                assert(others[k1 - items.len()] != others[k2 - items.len()]);
            }
        }
    } else {
        assert forall|k: int|
            0 <= k < kids.len() && (#[trigger] kids[k]).0 < t.nodes@.len() implies
            t.nodes@[kids[k].0 as int].parent == Some(e) && kids[k].0 != e by {
            assert(kids[k].0 == node.children@[k]);
        }
        assert forall|k1: int, k2: int|
            0 <= k1 < k2 < kids.len() && (#[trigger] kids[k1]).0 == (#[trigger] kids[k2]).0
            implies kids[k1].0 >= t.nodes@.len() by {
            assert(kids[k1].0 == node.children@[k1]);
            assert(kids[k2].0 == node.children@[k2]);
        }
    }
}

/// The initial queue pairs parentless entities with the root info, in
/// increasing entity order.
proof fn lemma_roots_shape(t: UiTree, root: ParentInfo, i: int)
    requires
        0 <= i <= t.nodes@.len(),
        i <= usize::MAX as int,
    ensures
        forall|j: int|
            0 <= j < roots_spec(t, root, i).len() ==> (#[trigger] roots_spec(t, root, i)[j]).1
                == root && (roots_spec(t, root, i)[j].0 as int) < i && t.nodes@[roots_spec(
                t,
                root,
                i,
            )[j].0 as int].parent is None,
        forall|j1: int, j2: int|
            0 <= j1 < j2 < roots_spec(t, root, i).len() ==> (#[trigger] roots_spec(
                t,
                root,
                i,
            )[j1]).0 < (#[trigger] roots_spec(t, root, i)[j2]).0,
    decreases i,
{
    if i > 0 {
        lemma_roots_shape(t, root, i - 1);
        let q = roots_spec(t, root, i);
        let p = roots_spec(t, root, i - 1);
        if t.nodes@[i - 1].parent is None {
            assert(q == p.push((((i - 1) as usize), root)));
            assert forall|j: int|
                0 <= j < q.len() implies (#[trigger] q[j]).1 == root && (q[j].0 as int) < i
                    && t.nodes@[q[j].0 as int].parent is None by {
                if j < p.len() {
                    assert(q[j] == p[j]);
                } else {
                    assert(q[j] == (((i - 1) as usize), root));
                }
            }
            assert forall|j1: int, j2: int|
                0 <= j1 < j2 < q.len() implies (#[trigger] q[j1]).0 < (#[trigger] q[j2]).0 by {
                assert(q[j1] == p[j1]);
                if j2 < p.len() {
                    assert(q[j2] == p[j2]);
                } else {
                    assert(q[j2] == (((i - 1) as usize), root));
                    assert((p[j1].0 as int) < i - 1);
                }
            }
        } else {
            assert(q == p);
            assert forall|j: int|
                0 <= j < q.len() implies (#[trigger] q[j]).1 == root && (q[j].0 as int) < i
                    && t.nodes@[q[j].0 as int].parent is None by {
                assert(q[j] == p[j]);
            }
            assert forall|j1: int, j2: int|
                0 <= j1 < j2 < q.len() implies (#[trigger] q[j1]).0 < (#[trigger] q[j2]).0 by {
                assert(q[j1] == p[j1] && q[j2] == p[j2]);
            }
        }
    }
}

/// Success is owed on every consistent hierarchy: when all live recorded
/// children point back at the entity that lists them, none is the entity
/// itself and none is listed twice, the frame always completes — the
/// engine returns `Ok` and commits.
pub proof fn lemma_consistent_hierarchy_completes(
    t: UiTree,
    root_rect: RotatedRect,
    root_dim: Vec2,
    rem: int,
)
    requires
        hierarchy_consistent_spec(t),
    ensures
        frame_spec(t, root_rect, root_dim, rem) is Some,
{
    let n = t.nodes@.len() as int;
    let root = root_info_spec(root_rect, root_dim, rem);
    let q0 = roots_spec(t, root, n);
    let v0 = Seq::new(n as nat, |j: int| false);
    assert(n <= usize::MAX as int) by {
        vstd::std_specs::vec::axiom_spec_len(&t.nodes);
    }
    lemma_roots_shape(t, root, n);
    assert(walk_inv_spec(t, q0, v0));
    lemma_frame_run_completes(t, rem, q0, v0, Seq::new(n as nat, |j: int| None::<NodeOutput>));
}

/// In a frame run that completes, every queued pair naming a live entity
/// carries the info of that entity's recorded parent.
proof fn lemma_frame_run_queue_sound(
    t: UiTree,
    rem: int,
    queue: Seq<(usize, ParentInfo)>,
    visited: Seq<bool>,
    outputs: Seq<Option<NodeOutput>>,
)
    requires
        frame_run(t, rem, queue, visited, outputs) is Some,
    ensures
        forall|j: int|
            0 <= j < queue.len() && (#[trigger] queue[j]).0 < t.nodes@.len() && queue[j].0
                < visited.len() ==> t.nodes@[queue[j].0 as int].parent == queue[j].1.entity,
    decreases count_false(visited, visited.len() as int), queue.len(),
{
    lemma_count_false_nonneg(visited, visited.len() as int);
    if queue.len() > 0 {
        let (e, info) = queue[0];
        let rest = queue.subrange(1, queue.len() as int);
        if e >= t.nodes@.len() || e >= visited.len() {
            lemma_frame_run_queue_sound(t, rem, rest, visited, outputs);
            assert(forall|j: int|
                1 <= j < queue.len() ==> #[trigger] queue[j] == rest[j - 1]);
        } else if t.nodes@[e as int].parent != info.entity {
        } else if visited[e as int] {
        } else {
            lemma_count_false_update(visited, e as int, visited.len() as int);
            lemma_count_false_nonneg(visited.update(e as int, true), visited.len() as int);
            assert(visited.update(e as int, true).len() == visited.len());
            let next = rest + resolve_kids_spec(t, e, info, rem);
            lemma_frame_run_queue_sound(
                t,
                rem,
                next,
                visited.update(e as int, true),
                outputs.update(e as int, Some(resolve_out_spec(t, e, info, rem))),
            );
            assert(forall|j: int| 1 <= j < queue.len() ==> #[trigger] queue[j] == next[j - 1]);
        }
    }
}

/// Gathering loses no live child: each one lands among the items or the
/// pass-through children.
proof fn lemma_gather_contains(
    t: UiTree,
    children: Seq<usize>,
    est_dim: Vec2,
    em: int,
    rem: int,
    range: (int, int),
    i: int,
    k: int,
)
    requires
        0 <= k < i <= children.len(),
        (children[k] as int) < t.nodes@.len(),
    ensures
        ({
            let (items, others, idx) = gather_spec(t, children, est_dim, em, rem, range, i);
            (exists|j: int| 0 <= j < items.len() && (#[trigger] items[j]).entity == children[k])
                || (exists|j: int| 0 <= j < others.len() && (#[trigger] others[j]) == children[k])
        }),
    decreases i,
{
    let (items, others, idx) = gather_spec(t, children, est_dim, em, rem, range, i);
    let (pitems, pothers, pidx) = gather_spec(t, children, est_dim, em, rem, range, i - 1);
    if k == i - 1 {
        let c = children[i - 1];
        let node = t.nodes@[c as int];
        if node.control is IgnoreLayout {
            assert(others == pothers.push(c));
            assert(others[others.len() - 1] == c);
            assert(exists|j: int|
                0 <= j < others.len() && (#[trigger] others[j]) == children[k]);
        } else if range.0 <= pidx < range.1 {
            assert(items == pitems.push(child_item_spec(c, node, est_dim, em, rem)));
            assert(items[items.len() - 1].entity == c);
            assert(exists|j: int|
                0 <= j < items.len() && (#[trigger] items[j]).entity == children[k]);
        } else {
            assert(others == pothers.push(c));
            assert(others[others.len() - 1] == c);
            assert(exists|j: int|
                0 <= j < others.len() && (#[trigger] others[j]) == children[k]);
        }
    } else {
        lemma_gather_contains(t, children, est_dim, em, rem, range, i - 1, k);
        if exists|j: int| 0 <= j < pitems.len() && (#[trigger] pitems[j]).entity == children[k] {
            let jw = choose|j: int|
                0 <= j < pitems.len() && (#[trigger] pitems[j]).entity == children[k];
            assert(items[jw].entity == children[k]);
            assert(exists|j: int|
                0 <= j < items.len() && (#[trigger] items[j]).entity == children[k]);
        } else {
            let jw = choose|j: int|
                0 <= j < pothers.len() && (#[trigger] pothers[j]) == children[k];
            assert(others[jw] == children[k]);
            assert(exists|j: int|
                0 <= j < others.len() && (#[trigger] others[j]) == children[k]);
        }
    }
}

/// Every live recorded child of a resolved entity is enqueued, with an
/// info naming that entity as its parent.
proof fn lemma_resolve_kids_contains(t: UiTree, e: usize, info: ParentInfo, rem: int, i: int)
    requires
        e < t.nodes@.len(),
        0 <= i < t.nodes@[e as int].children@.len(),
        (t.nodes@[e as int].children@[i] as int) < t.nodes@.len(),
    ensures
        exists|j: int|
            0 <= j < resolve_kids_spec(t, e, info, rem).len() && (#[trigger] resolve_kids_spec(
                t,
                e,
                info,
                rem,
            )[j]).0 == t.nodes@[e as int].children@[i] && resolve_kids_spec(t, e, info, rem)[j].1.entity
                == Some(e),
{
    let node = t.nodes@[e as int];
    let c = node.children@[i];
    let kids = resolve_kids_spec(t, e, info, rem);
    if container_active_spec(node) {
        let cont = node.container->Some_0;
        let em = node.dimension.resolve_em_spec(info.em as int, rem);
        let dimension = node.dimension.resolve_size_spec(info.dimension, em, rem);
        let est_dim = if node.dimension.dim is Owned {
            dimension
        } else {
            Vec2 { x: 0, y: 0 }
        };
        let (items, others, idx) = gather_spec(
            t,
            node.children@,
            est_dim,
            em,
            rem,
            range_spec(cont),
            node.children@.len() as int,
        );
        lemma_gather_contains(
            t,
            node.children@,
            est_dim,
            em,
            rem,
            range_spec(cont),
            node.children@.len() as int,
            i,
        );
        if exists|j: int| 0 <= j < items.len() && (#[trigger] items[j]).entity == c {
            let j = choose|j: int| 0 <= j < items.len() && (#[trigger] items[j]).entity == c;
            assert(kids[j].0 == c && kids[j].1.entity == Some(e));
        } else {
            let j = choose|j: int| 0 <= j < others.len() && (#[trigger] others[j]) == c;
            assert(kids[items.len() + j].0 == c && kids[items.len() + j].1.entity == Some(e));
        }
    } else {
        assert(kids[i].0 == c && kids[i].1.entity == Some(e));
    }
}

/// Whether `e` descends from a parentless entity along recorded,
/// mutually consistent links: every step climbs to a parent that both is
/// recorded by the entity and lists the entity among its children.
pub open spec fn rooted_spec(t: UiTree, e: usize, fuel: int) -> bool
    decreases fuel,
{
    &&& (e as int) < t.nodes@.len()
    &&& match t.nodes@[e as int].parent {
        None => true,
        Some(p) => if fuel <= 0 {
            false
        } else {
            &&& (p as int) < t.nodes@.len()
            &&& t.nodes@[p as int].children@.contains(e)
            &&& rooted_spec(t, p, fuel - 1)
        },
    }
}

/// Being rooted survives a larger fuel bound.
proof fn lemma_rooted_mono(t: UiTree, e: usize, f1: int, f2: int)
    requires
        rooted_spec(t, e, f1),
        f1 <= f2,
    ensures
        rooted_spec(t, e, f2),
    decreases f1,
{
    match t.nodes@[e as int].parent {
        None => {},
        Some(p) => {
            lemma_rooted_mono(t, p, f1 - 1, f2 - 1);
        },
    }
}

/// The reachability invariant of a walk: every consistently rooted entity
/// is already visited, still queued, or waits behind an unvisited parent.
pub open spec fn reach_inv_spec(
    t: UiTree,
    queue: Seq<(usize, ParentInfo)>,
    visited: Seq<bool>,
) -> bool {
    forall|x: usize|
        #[trigger] rooted_spec(t, x, t.nodes@.len() as int) ==> visited[x as int] || (exists|j: int|
            0 <= j < queue.len() && (#[trigger] queue[j]).0 == x) || (
        t.nodes@[x as int].parent is Some
            && !visited[t.nodes@[x as int].parent->Some_0 as int])
}

/// With the queue drained, the reachability invariant forces every rooted
/// entity to have been visited.
proof fn lemma_rooted_visited_when_drained(
    t: UiTree,
    queue: Seq<(usize, ParentInfo)>,
    visited: Seq<bool>,
    x: usize,
    fuel: int,
)
    requires
        visited.len() == t.nodes@.len(),
        queue.len() == 0,
        reach_inv_spec(t, queue, visited),
        rooted_spec(t, x, fuel),
        0 <= fuel <= t.nodes@.len(),
    ensures
        visited[x as int],
    decreases fuel,
{
    lemma_rooted_mono(t, x, fuel, t.nodes@.len() as int);
    match t.nodes@[x as int].parent {
        None => {},
        Some(p) => {
            lemma_rooted_visited_when_drained(t, queue, visited, p, fuel - 1);
        },
    }
}

/// While an unvisited rooted entity with a mismatched live child remains
/// to be walked, the frame cannot complete.
proof fn lemma_bad_child_unreached(
    t: UiTree,
    rem: int,
    queue: Seq<(usize, ParentInfo)>,
    visited: Seq<bool>,
    outputs: Seq<Option<NodeOutput>>,
    e: usize,
    i: int,
)
    requires
        visited.len() == t.nodes@.len(),
        reach_inv_spec(t, queue, visited),
        rooted_spec(t, e, t.nodes@.len() as int),
        !visited[e as int],
        0 <= i < t.nodes@[e as int].children@.len(),
        (t.nodes@[e as int].children@[i] as int) < t.nodes@.len(),
        t.nodes@[t.nodes@[e as int].children@[i] as int].parent != Some(e),
    ensures
        frame_run(t, rem, queue, visited, outputs) is None,
    decreases count_false(visited, visited.len() as int), queue.len(),
{
    let n = t.nodes@.len() as int;
    lemma_count_false_nonneg(visited, visited.len() as int);
    if queue.len() == 0 {
        lemma_rooted_visited_when_drained(t, queue, visited, e, n);
        assert(false);
    } else {
        let (h, info) = queue[0];
        let rest = queue.subrange(1, queue.len() as int);
        if h >= t.nodes@.len() || h >= visited.len() {
            assert(reach_inv_spec(t, rest, visited)) by {
                assert forall|x: usize|
                    #[trigger] rooted_spec(t, x, n) && !visited[x as int] && !(
                    t.nodes@[x as int].parent is Some
                        && !visited[t.nodes@[x as int].parent->Some_0 as int]) implies exists|
                    j: int,
                |
                    0 <= j < rest.len() && (#[trigger] rest[j]).0 == x by {
                    let jw = choose|j: int|
                        0 <= j < queue.len() && (#[trigger] queue[j]).0 == x;
                    assert(jw != 0);
                    assert(rest[jw - 1].0 == x);
                }
            }
            lemma_bad_child_unreached(t, rem, rest, visited, outputs, e, i);
        } else if t.nodes@[h as int].parent != info.entity {
        } else if visited[h as int] {
        } else {
            lemma_count_false_update(visited, h as int, visited.len() as int);
            lemma_count_false_nonneg(visited.update(h as int, true), visited.len() as int);
            assert(visited.update(h as int, true).len() == visited.len());
            let kids = resolve_kids_spec(t, h, info, rem);
            let next = rest + kids;
            let visited2 = visited.update(h as int, true);
            let outputs2 = outputs.update(h as int, Some(resolve_out_spec(t, h, info, rem)));
            if h == e {
                lemma_resolve_kids_contains(t, e, info, rem, i);
                if frame_run(t, rem, next, visited2, outputs2) is Some {
                    lemma_frame_run_queue_sound(t, rem, next, visited2, outputs2);
                    let c = t.nodes@[e as int].children@[i];
                    let j = choose|j: int|
                        0 <= j < kids.len() && (#[trigger] kids[j]).0 == c && kids[j].1.entity
                            == Some(e);
                    assert(next[rest.len() + j] == kids[j]);
                    assert(false);
                }
            } else {
                assert(reach_inv_spec(t, next, visited2)) by {
                    assert forall|x: usize|
                        #[trigger] rooted_spec(t, x, n) && !visited2[x as int] && !(
                        t.nodes@[x as int].parent is Some
                            && !visited2[t.nodes@[x as int].parent->Some_0 as int]) implies exists|
                        j: int,
                    |
                        0 <= j < next.len() && (#[trigger] next[j]).0 == x by {
                        assert(x != h);
                        if !visited[x as int] && (exists|j: int|
                            0 <= j < queue.len() && (#[trigger] queue[j]).0 == x) {
                            let jw = choose|j: int|
                                0 <= j < queue.len() && (#[trigger] queue[j]).0 == x;
                            assert(jw != 0);
                            assert(rest[jw - 1].0 == x);
                            assert(next[jw - 1].0 == x);
                        } else {
                            // The old invariant's last disjunct held, and the
                            // unvisited parent is the entity just resolved:
                            // its children were all enqueued.
                            let p = t.nodes@[x as int].parent->Some_0;
                            assert(p == h);
                            assert(t.nodes@[h as int].children@.contains(x));
                            let ci = choose|ix: int|
                                0 <= ix < t.nodes@[h as int].children@.len()
                                    && t.nodes@[h as int].children@[ix] == x;
                            lemma_resolve_kids_contains(t, h, info, rem, ci);
                            let j = choose|j: int|
                                0 <= j < kids.len() && (#[trigger] kids[j]).0 == x
                                    && kids[j].1.entity == Some(h);
                            assert(next[rest.len() + j].0 == x);
                        }
                    }
                }
                assert(!visited2[e as int]);
                lemma_bad_child_unreached(t, rem, next, visited2, outputs2, e, i);
            }
        }
    }
}

/// The initial queue holds every parentless entity.
proof fn lemma_roots_contains(t: UiTree, root: ParentInfo, i: int, e: usize)
    requires
        0 <= e < i <= t.nodes@.len(),
        t.nodes@[e as int].parent is None,
    ensures
        exists|j: int|
            0 <= j < roots_spec(t, root, i).len() && #[trigger] roots_spec(t, root, i)[j] == (
                e,
                root,
            ),
    decreases i,
{
    if e == i - 1 {
        let q = roots_spec(t, root, i);
        let p = roots_spec(t, root, i - 1);
        assert(q == p.push((e, root)));
        assert(q[q.len() - 1] == (e, root));
        assert(exists|j: int|
            0 <= j < q.len() && #[trigger] q[j] == (e, root));
    } else {
        lemma_roots_contains(t, root, i - 1, e);
        let p = roots_spec(t, root, i - 1);
        let q = roots_spec(t, root, i);
        let jw = choose|j: int| 0 <= j < p.len() && #[trigger] p[j] == (e, root);
        assert(q[jw] == (e, root));
        assert(exists|j: int| 0 <= j < q.len() && #[trigger] q[j] == (e, root));
    }
}

/// Malformed-hierarchy detection: a tree holding an entity that descends
/// from a parentless root along consistent links, one of whose live
/// recorded children records a different parent, can never complete a
/// frame — at any depth, the engine takes the fatal error path and leaves
/// every previously computed value untouched, never silently continuing.
pub proof fn lemma_malformed_hierarchy_detected(
    t: UiTree,
    root_rect: RotatedRect,
    root_dim: Vec2,
    rem: int,
    e: usize,
    i: int,
)
    requires
        rooted_spec(t, e, t.nodes@.len() as int),
        0 <= i < t.nodes@[e as int].children@.len(),
        (t.nodes@[e as int].children@[i] as int) < t.nodes@.len(),
        t.nodes@[t.nodes@[e as int].children@[i] as int].parent != Some(e),
    ensures
        frame_spec(t, root_rect, root_dim, rem) is None,
{
    let n = t.nodes@.len() as int;
    let root = root_info_spec(root_rect, root_dim, rem);
    let q0 = roots_spec(t, root, n);
    let v0 = Seq::new(n as nat, |j: int| false);
    assert(reach_inv_spec(t, q0, v0)) by {
        assert forall|x: usize|
            #[trigger] rooted_spec(t, x, n) && !(t.nodes@[x as int].parent is Some
                && !v0[t.nodes@[x as int].parent->Some_0 as int]) implies exists|j: int|
            0 <= j < q0.len() && (#[trigger] q0[j]).0 == x by {
            assert(t.nodes@[x as int].parent is None);
            lemma_roots_contains(t, root, n, x);
            let jw = choose|j: int| 0 <= j < q0.len() && #[trigger] q0[j] == (x, root);
            assert(q0[jw].0 == x);
        }
    }
    lemma_bad_child_unreached(
        t,
        rem,
        q0,
        v0,
        Seq::new(n as nat, |j: int| None::<NodeOutput>),
        e,
        i,
    );
}

/// The write count never exceeds the index.
proof fn lemma_count_writes_bounds(nodes: Seq<UiNode>, outs: Seq<Option<NodeOutput>>, i: int)
    requires
        0 <= i,
    ensures
        0 <= count_writes(nodes, outs, i) <= i,
    decreases i,
{
    if i > 0 {
        lemma_count_writes_bounds(nodes, outs, i - 1);
    }
}

/// Whether the container layout path applies to a node.
fn node_container_active(node: &UiNode) -> (r: bool)
    ensures
        r == container_active_spec(*node),
{
    match &node.container {
        Some(c) => c.layout.well_configured(),
        None => false,
    }
}

/// Resolve one entity without a (well-configured) container: its rectangle
/// comes straight from its own dimension, and every recorded child is
/// enqueued with the derived info.
#[verifier::loop_isolation(false)]
fn resolve_plain(tree: &UiTree, e: usize, info: ParentInfo, rem: i64) -> (r: (
    NodeOutput,
    Vec<(usize, ParentInfo)>,
))
    requires
        e < tree.nodes@.len(),
        !container_active_spec(tree.nodes@[e as int]),
    ensures
        r.0 == resolve_out_spec(*tree, e, info, rem as int),
        r.1@ == resolve_kids_spec(*tree, e, info, rem as int),
{
    let node = &tree.nodes[e];
    let em = node.dimension.set_em.resolve(info.em, rem);
    let dimension = node.dimension.estimate(info.dimension, em, rem);
    let offset = node.transform.offset.as_pixels(info.dimension, em, rem);
    let opacity = node.opacity.compose(info.opacity);
    let disabled = node.opacity.disabled || info.disabled;
    let z = if node.transform.z != 0 {
        fx_add(info.rect.z, node.transform.z)
    } else {
        fx_add(info.rect.z, Z_INCREMENT)
    };
    let rect = RotatedRect::construct(
        &info,
        node.transform.parent_anchor,
        node.transform.anchor,
        offset,
        dimension,
        node.transform.center,
        node.transform.rotation,
        node.transform.scale,
        z,
    );
    let out = NodeOutput {
        rect,
        size: dimension,
        em,
        computed_opacity: opacity,
        computed_disabled: disabled,
        clip_global: info.clip,
    };
    let base = ParentInfo {
        entity: Some(e),
        rect,
        anchor: None,
        dimension,
        em,
        opacity,
        disabled,
        clip: if node.clipping.clip {
            Some(rect.affine)
        } else {
            info.clip
        },
    };
    assert(base == child_base_info_spec(*tree, e, info, rem as int));
    let mut kids: Vec<(usize, ParentInfo)> = Vec::new();
    let mut j: usize = 0;
    while j < node.children.len()
        invariant
            0 <= j <= node.children@.len(),
            kids@.len() == j,
            forall|q: int| 0 <= q < j ==> #[trigger] kids@[q] == (node.children@[q], base),
        decreases node.children@.len() - j,
    {
        kids.push((node.children[j], base));
        j = j + 1;
    }
    assert(kids@ =~= resolve_kids_spec(*tree, e, info, rem as int));
    (out, kids)
}

/// Collect the layout items and pass-through children of a container:
/// recorded children are partitioned into those fed to the strategy (in
/// order, with their size estimates) and those that keep their own anchors
/// (ignore-layout or outside the ordinal range); despawned handles are
/// dropped.
#[verifier::loop_isolation(false)]
fn gather_children(
    tree: &UiTree,
    e: usize,
    est_dim: Vec2,
    em: i64,
    rem: i64,
    r0: usize,
    r1: usize,
) -> (r: (Vec<LayoutItem>, Vec<usize>))
    requires
        e < tree.nodes@.len(),
    ensures
        r.0@ == gather_spec(
            *tree,
            tree.nodes@[e as int].children@,
            est_dim,
            em as int,
            rem as int,
            (r0 as int, r1 as int),
            tree.nodes@[e as int].children@.len() as int,
        ).0,
        r.1@ == gather_spec(
            *tree,
            tree.nodes@[e as int].children@,
            est_dim,
            em as int,
            rem as int,
            (r0 as int, r1 as int),
            tree.nodes@[e as int].children@.len() as int,
        ).1,
{
    let node = &tree.nodes[e];
    let ghost grange = (r0 as int, r1 as int);
    let mut items: Vec<LayoutItem> = Vec::new();
    let mut others: Vec<usize> = Vec::new();
    let mut idx: usize = 0;
    let mut i: usize = 0;
    while i < node.children.len()
        invariant
            0 <= i <= node.children@.len(),
            idx <= i,
            items@ == gather_spec(
                *tree,
                node.children@,
                est_dim,
                em as int,
                rem as int,
                grange,
                i as int,
            ).0,
            others@ == gather_spec(
                *tree,
                node.children@,
                est_dim,
                em as int,
                rem as int,
                grange,
                i as int,
            ).1,
            idx as int == gather_spec(
                *tree,
                node.children@,
                est_dim,
                em as int,
                rem as int,
                grange,
                i as int,
            ).2,
        decreases node.children@.len() - i,
    {
        let ch = node.children[i];
        if ch < tree.nodes.len() {
            let cn = &tree.nodes[ch];
            if matches!(cn.control, LayoutControl::IgnoreLayout) {
                others.push(ch);
            } else {
                if r0 <= idx && idx < r1 {
                    let ec = cn.dimension.set_em.resolve(em, rem);
                    let est = if cn.container.is_some() && !cn.dimension.is_owned() {
                        Vec2 { x: 0, y: 0 }
                    } else {
                        cn.dimension.estimate(est_dim, ec, rem)
                    };
                    items.push(
                        LayoutItem {
                            entity: ch,
                            anchor: cn.transform.get_parent_anchor(),
                            dimension: est,
                            control: cn.control,
                        },
                    );
                    assert(items@.last() == child_item_spec(
                        ch,
                        tree.nodes@[ch as int],
                        est_dim,
                        em as int,
                        rem as int,
                    ));
                } else {
                    others.push(ch);
                }
                idx = idx + 1;
            }
        }
        i = i + 1;
    }
    (items, others)
}

/// Resolve one entity with an active container: gather its children,
/// invoke the layout strategy, apply the padding, and enqueue every placed
/// child with its assigned anchor fraction and every other child with the
/// plain derived info.
#[verifier::loop_isolation(false)]
#[verifier::rlimit(80)]
fn resolve_container(tree: &UiTree, e: usize, info: ParentInfo, rem: i64, c: &Container) -> (r: (
    NodeOutput,
    Vec<(usize, ParentInfo)>,
))
    requires
        e < tree.nodes@.len(),
        tree.nodes@[e as int].container is Some,
        tree.nodes@[e as int].container->Some_0 == *c,
        container_active_spec(tree.nodes@[e as int]),
    ensures
        r.0 == resolve_out_spec(*tree, e, info, rem as int),
        r.1@ == resolve_kids_spec(*tree, e, info, rem as int),
{
    let node = &tree.nodes[e];
    let em = node.dimension.set_em.resolve(info.em, rem);
    let dimension = node.dimension.estimate(info.dimension, em, rem);
    let offset = node.transform.offset.as_pixels(info.dimension, em, rem);
    let opacity = node.opacity.compose(info.opacity);
    let disabled = node.opacity.disabled || info.disabled;
    let z = if node.transform.z != 0 {
        fx_add(info.rect.z, node.transform.z)
    } else {
        fx_add(info.rect.z, Z_INCREMENT)
    };
    let est_dim = if node.dimension.is_owned() {
        dimension
    } else {
        Vec2 { x: 0, y: 0 }
    };
    let (r0, r1): (usize, usize) = match c.range {
        Some((a, b)) => (a, b),
        None => (0, usize::MAX),
    };
    let ghost grange = range_spec(*c);
    assert(grange == (r0 as int, r1 as int));

    let (items, others) = gather_children(tree, e, est_dim, em, rem, r0, r1);
    let ghost items_g = items@;
    let ghost others_g = others@;

    let margin = c.margin.as_pixels(info.dimension, em, rem);
    let padding = c.padding.as_pixels(info.dimension, em, rem);
    let linfo = LayoutInfo { dimension, em, rem, margin };
    let lo = c.layout.place(&linfo, items);
    let size = lo.dimension.add(padding.add(padding));
    let rect = RotatedRect::construct(
        &info,
        node.transform.parent_anchor,
        node.transform.anchor,
        offset,
        size,
        node.transform.center,
        node.transform.rotation,
        node.transform.scale,
        z,
    );
    let out = NodeOutput {
        rect,
        size,
        em,
        computed_opacity: opacity,
        computed_disabled: disabled,
        clip_global: info.clip,
    };
    assert(out == resolve_out_spec(*tree, e, info, rem as int));
    let base = ParentInfo {
        entity: Some(e),
        rect,
        anchor: None,
        dimension: size,
        em,
        opacity,
        disabled,
        clip: if node.clipping.clip {
            Some(rect.affine)
        } else {
            info.clip
        },
    };
    assert(base == child_base_info_spec(*tree, e, info, rem as int));

    let mut kids: Vec<(usize, ParentInfo)> = Vec::new();
    let mut k: usize = 0;
    while k < lo.entity_anchors.len()
        invariant
            0 <= k <= lo.entity_anchors@.len(),
            lo.entity_anchors@.len() == items_g.len(),
            kids@.len() == k,
            forall|q: int|
                0 <= q < k ==> #[trigger] kids@[q] == (
                    items_g[q].entity,
                    ParentInfo {
                        anchor: Some(
                            placed_frac_spec(
                                c.layout.pos_spec(linfo, items_g, q),
                                padding,
                                size,
                            ),
                        ),
                        ..base
                    },
                ),
        decreases lo.entity_anchors@.len() - k,
    {
        let (ent, pos) = lo.entity_anchors[k];
        let frac = pos.add(padding).div(size).sub(Vec2 { x: FX_HALF, y: FX_HALF });
        kids.push((ent, base.with_anchor(frac)));
        k = k + 1;
    }
    let mut j: usize = 0;
    while j < others.len()
        invariant
            0 <= j <= others_g.len(),
            others@ == others_g,
            kids@.len() == items_g.len() + j,
            forall|q: int|
                0 <= q < items_g.len() ==> #[trigger] kids@[q] == (
                    items_g[q].entity,
                    ParentInfo {
                        anchor: Some(
                            placed_frac_spec(
                                c.layout.pos_spec(linfo, items_g, q),
                                padding,
                                size,
                            ),
                        ),
                        ..base
                    },
                ),
            forall|q: int|
                0 <= q < j ==> #[trigger] kids@[items_g.len() + q] == (others_g[q], base),
        decreases others_g.len() - j,
    {
        kids.push((others[j], base));
        j = j + 1;
    }
    proof {
        let node_g = tree.nodes@[e as int];
        let em_g = node_g.dimension.resolve_em_spec(info.em as int, rem as int);
        let dimension_g = node_g.dimension.resolve_size_spec(info.dimension, em_g, rem as int);
        assert(em as int == em_g);
        assert(dimension == dimension_g);
        let gspec = gather_spec(
            *tree,
            node_g.children@,
            est_dim,
            em as int,
            rem as int,
            grange,
            node_g.children@.len() as int,
        );
        assert(items_g == gspec.0);
        assert(others_g == gspec.1);
        let spec_kids = resolve_kids_spec(*tree, e, info, rem as int);
        assert(spec_kids.len() == items_g.len() + others_g.len());
        assert forall|q: int| 0 <= q < kids@.len() implies kids@[q] == spec_kids[q] by {
            if q < items_g.len() {
                assert(kids@[q] == (
                    items_g[q].entity,
                    ParentInfo {
                        anchor: Some(
                            placed_frac_spec(
                                c.layout.pos_spec(linfo, items_g, q),
                                padding,
                                size,
                            ),
                        ),
                        ..base
                    },
                ));
            } else {
                let q2 = q - items_g.len();
                assert(kids@[items_g.len() + q2] == (others_g[q2], base));
            }
        }
        assert(kids@ =~= spec_kids);
    }
    (out, kids)
}

/// Resolve one entity reached with `info`: its computed state and the
/// queue entries for its children.
fn resolve_node(tree: &UiTree, e: usize, info: ParentInfo, rem: i64) -> (r: (
    NodeOutput,
    Vec<(usize, ParentInfo)>,
))
    requires
        e < tree.nodes@.len(),
    ensures
        r.0 == resolve_out_spec(*tree, e, info, rem as int),
        r.1@ == resolve_kids_spec(*tree, e, info, rem as int),
{
    let active = node_container_active(&tree.nodes[e]);
    if active {
        let node = &tree.nodes[e];
        match &node.container {
            Some(c) => resolve_container(tree, e, info, rem, c),
            None => {
                proof {
                    assert(false);
                }
                resolve_plain(tree, e, info, rem)
            },
        }
    } else {
        resolve_plain(tree, e, info, rem)
    }
}

/// The main computation step: one frame of the propagation engine.
///
/// Every parentless entity is queued against the root surface rectangle;
/// the queue is then drained in order, each pair resolving one entity and
/// enqueueing its children, exactly as [`frame_run`] describes. If the
/// traversal finds the hierarchy malformed the frame returns
/// `Err(MalformedHierarchy)` with the tree untouched; otherwise the
/// computed values are committed and the number of rectangles that
/// actually changed (and were therefore rewritten) is returned.
#[verifier::loop_isolation(false)]
#[verifier::rlimit(100)]
#[verifier::spinoff_prover]
pub fn compute_aoui_transforms(
    tree: &mut UiTree,
    root_rect: &RotatedRect,
    root_dim: Vec2,
    rem: i64,
) -> (r: Result<usize, MalformedHierarchy>)
    ensures
        frame_spec(*old(tree), *root_rect, root_dim, rem as int) is None ==> r is Err
            && *final(tree) == *old(tree),
        frame_spec(*old(tree), *root_rect, root_dim, rem as int) matches Some(outs) ==> {
            &&& r is Ok
            &&& final(tree).nodes@.len() == old(tree).nodes@.len()
            &&& forall|j: int|
                0 <= j < old(tree).nodes@.len() ==> final(tree).nodes@[j] == (match outs[j] {
                    Some(o) => commit_node_spec(old(tree).nodes@[j], o),
                    None => old(tree).nodes@[j],
                })
            &&& r->Ok_0 as int == count_writes(old(tree).nodes@, outs, old(tree).nodes@.len() as int)
        },
{
    let n = tree.nodes.len();
    let root_info = ParentInfo {
        entity: None,
        rect: *root_rect,
        anchor: None,
        dimension: root_dim,
        em: rem,
        opacity: FX_SCALE,
        disabled: false,
        clip: None,
    };
    assert(root_info == root_info_spec(*root_rect, root_dim, rem as int));

    let mut queue: Vec<(usize, ParentInfo)> = Vec::new();
    let mut e0: usize = 0;
    while e0 < n
        invariant
            0 <= e0 <= n,
            queue@ == roots_spec(*tree, root_info, e0 as int),
        decreases n - e0,
    {
        if matches!(tree.nodes[e0].parent, None) {
            queue.push((e0, root_info));
        }
        e0 = e0 + 1;
    }

    let mut visited: Vec<bool> = Vec::new();
    let mut outputs: Vec<Option<NodeOutput>> = Vec::new();
    let mut e1: usize = 0;
    while e1 < n
        invariant
            0 <= e1 <= n,
            visited@.len() == e1,
            outputs@.len() == e1,
            forall|j: int| 0 <= j < e1 ==> #[trigger] visited@[j] == false,
            forall|j: int| 0 <= j < e1 ==> #[trigger] outputs@[j] is None,
        decreases n - e1,
    {
        visited.push(false);
        outputs.push(None);
        e1 = e1 + 1;
    }
    assert(visited@ =~= Seq::new(n as nat, |j: int| false));
    assert(outputs@ =~= Seq::new(n as nat, |j: int| None::<NodeOutput>));

    let ghost init_res = frame_spec(*tree, *root_rect, root_dim, rem as int);
    assert(init_res == frame_run(*tree, rem as int, queue@, visited@, outputs@));
    assert(queue@.subrange(0, queue@.len() as int) =~= queue@);

    let mut h: usize = 0;
    while h < queue.len()
        invariant
            *tree == *old(tree),
            n == tree.nodes@.len(),
            h <= queue@.len(),
            visited@.len() == n,
            outputs@.len() == n,
            frame_run(
                *tree,
                rem as int,
                queue@.subrange(h as int, queue@.len() as int),
                visited@,
                outputs@,
            ) == init_res,
        decreases count_false(visited@, n as int), queue@.len() - h,
    {
        let ghost pending = queue@.subrange(h as int, queue@.len() as int);
        let (e, info) = queue[h];
        assert(pending[0] == (e, info));
        let ghost rest = pending.subrange(1, pending.len() as int);
        if e < n {
            let node_parent = tree.nodes[e].parent;
            let pmatch: bool = match (node_parent, info.entity) {
                (None, None) => true,
                (Some(a), Some(b)) => a == b,
                _ => false,
            };
            proof {
                assert(pmatch == (tree.nodes@[e as int].parent == info.entity));
            }
            if !pmatch {
                assert(init_res is None);
                return Err(MalformedHierarchy);
            }
            if visited[e] {
                assert(init_res is None);
                return Err(MalformedHierarchy);
            }
            let (out, mut kids) = resolve_node(tree, e, info, rem);
            let ghost old_visited = visited@;
            let ghost old_outputs = outputs@;
            let ve = &mut visited[e];
            *ve = true;
            let oe = &mut outputs[e];
            *oe = Some(out);
            proof {
                lemma_count_false_update(old_visited, e as int, n as int);
                lemma_count_false_nonneg(visited@, n as int);
            }
            let ghost kids_g = kids@;
            queue.append(&mut kids);
            proof {
                assert(frame_run(*tree, rem as int, pending, old_visited, old_outputs)
                    == frame_run(
                    *tree,
                    rem as int,
                    rest + kids_g,
                    old_visited.update(e as int, true),
                    old_outputs.update(e as int, Some(out)),
                ));
                assert(visited@ =~= old_visited.update(e as int, true));
                assert(outputs@ =~= old_outputs.update(e as int, Some(out)));
                assert(queue@.subrange(h as int + 1, queue@.len() as int) =~= rest + kids_g);
            }
        } else {
            proof {
                assert(frame_run(*tree, rem as int, pending, visited@, outputs@) == frame_run(
                    *tree,
                    rem as int,
                    rest,
                    visited@,
                    outputs@,
                ));
                assert(queue@.subrange(h as int + 1, queue@.len() as int) =~= rest);
            }
        }
        h = h + 1;
    }
    assert(queue@.subrange(h as int, queue@.len() as int) =~= Seq::<(usize, ParentInfo)>::empty());
    assert(init_res == Some(outputs@));

    let writes = commit_outputs(tree, &outputs);
    Ok(writes)
}

/// Store the computed values into the tree, rewriting each rectangle only
/// when it changed, and count the rewrites.
#[verifier::loop_isolation(false)]
fn commit_outputs(tree: &mut UiTree, outputs: &Vec<Option<NodeOutput>>) -> (writes: usize)
    requires
        outputs@.len() == old(tree).nodes@.len(),
    ensures
        final(tree).nodes@.len() == old(tree).nodes@.len(),
        forall|j: int|
            0 <= j < old(tree).nodes@.len() ==> final(tree).nodes@[j] == (match outputs@[j] {
                Some(o) => commit_node_spec(old(tree).nodes@[j], o),
                None => old(tree).nodes@[j],
            }),
        writes as int == count_writes(old(tree).nodes@, outputs@, old(tree).nodes@.len() as int),
{
    let n = tree.nodes.len();
    let ghost outs = outputs@;
    let mut writes: usize = 0;
    let mut e2: usize = 0;
    while e2 < n
        invariant
            0 <= e2 <= n,
            n == old(tree).nodes@.len(),
            tree.nodes@.len() == n,
            outs.len() == n,
            writes as int == count_writes(old(tree).nodes@, outs, e2 as int),
            forall|j: int|
                0 <= j < e2 ==> tree.nodes@[j] == (match outs[j] {
                    Some(o) => commit_node_spec(old(tree).nodes@[j], o),
                    None => old(tree).nodes@[j],
                }),
            forall|j: int| e2 <= j < n ==> tree.nodes@[j] == old(tree).nodes@[j],
        decreases n - e2,
    {
        proof {
            lemma_count_writes_bounds(old(tree).nodes@, outs, e2 as int + 1);
        }
        match outputs[e2] {
            Some(o) => {
                let changed: bool;
                let node = &mut tree.nodes[e2];
                node.dimension.size = o.size;
                node.dimension.em = o.em;
                node.opacity.computed_opacity = o.computed_opacity;
                node.opacity.computed_disabled = o.computed_disabled;
                node.opacity.occluded = false;
                node.clipping.global = o.clip_global;
                if !(node.rect == o.rect) {
                    node.rect = o.rect;
                    changed = true;
                } else {
                    changed = false;
                }
                assert(*final(node) == commit_node_spec(old(tree).nodes@[e2 as int], o));
                if changed {
                    writes = writes + 1;
                }
            },
            None => {},
        }
        e2 = e2 + 1;
    }
    writes
}

} // verus!
