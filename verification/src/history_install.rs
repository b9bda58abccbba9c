//! How a confirmed change of history, tree or page reaches the canvas.
use vstd::prelude::*;

use crate::canvas::{ActiveCanvas, CanvasState, EditProjection};
use crate::command::CommandRejectReason;
use crate::document::{CanvasSpec, LayerTreeNodeId, PixelSize};
use crate::effect::InkEffect;
use crate::gpu_ops::GpuState;
use crate::layer_tree::{
    next_layer_node_id, valid_active_layer, GroupNode, LayerNode, LayerTree, LayerTreeNode,
};
use crate::stroke_pipeline::PipelineState;
use crate::tile_map::TileKey;

verus! {

/// Two rasters with the same identity, name, settings and content.
pub open spec fn alike_rasters(a: LayerNode, b: LayerNode) -> bool {
    &&& a.id == b.id
    &&& a.name@ == b.name@
    &&& a.visible == b.visible
    &&& a.locked == b.locked
    &&& a.reference == b.reference
    &&& a.alpha_locked == b.alpha_locked
    &&& a.clip_to_below == b.clip_to_below
    &&& a.blend_mode == b.blend_mode
    &&& a.opacity_u16 == b.opacity_u16
    &&& a.content_root == b.content_root
}

/// Two groups that agree in everything but their children.
pub open spec fn alike_headers(a: GroupNode, b: GroupNode) -> bool {
    &&& a.id == b.id
    &&& a.name@ == b.name@
    &&& a.visible == b.visible
    &&& a.clip_to_below == b.clip_to_below
    &&& a.blend_mode == b.blend_mode
    &&& a.opacity_u16 == b.opacity_u16
}

/// Two lists of nodes that agree in shape and content.
pub open spec fn alike(a: Seq<LayerTreeNode>, b: Seq<LayerTreeNode>) -> bool
    decreases a,
{
    if a.len() == 0 || b.len() == 0 {
        a.len() == b.len()
    } else {
        &&& alike(a.drop_last(), b.drop_last())
        &&& match (a.last(), b.last()) {
            (LayerTreeNode::Raster(x), LayerTreeNode::Raster(y)) => alike_rasters(x, y),
            (LayerTreeNode::Group(x), LayerTreeNode::Group(y)) => alike_headers(x, y) && alike(
                x.children@,
                y.children@,
            ),
            _ => false,
        }
    }
}

fn same_raster(a: &LayerNode, b: &LayerNode) -> (r: bool)
    ensures
        r == alike_rasters(*a, *b),
{
    a.id == b.id && a.name == b.name && a.visible == b.visible && a.locked == b.locked
        && a.reference == b.reference && a.alpha_locked == b.alpha_locked && a.clip_to_below
        == b.clip_to_below && a.blend_mode == b.blend_mode && a.opacity_u16 == b.opacity_u16
        && a.content_root == b.content_root
}

fn same_header(a: &GroupNode, b: &GroupNode) -> (r: bool)
    ensures
        r == alike_headers(*a, *b),
{
    a.id == b.id && a.name == b.name && a.visible == b.visible && a.clip_to_below
        == b.clip_to_below && a.blend_mode == b.blend_mode && a.opacity_u16 == b.opacity_u16
}

proof fn lemma_alike_lengths(a: Seq<LayerTreeNode>, b: Seq<LayerTreeNode>)
    requires
        alike(a, b),
    ensures
        a.len() == b.len(),
    decreases a.len(),
{
    if a.len() > 0 && b.len() > 0 {
        lemma_alike_lengths(a.drop_last(), b.drop_last());
    }
}

proof fn lemma_alike_prefix(a: Seq<LayerTreeNode>, b: Seq<LayerTreeNode>, n: int)
    requires
        alike(a, b),
        0 <= n <= a.len(),
    ensures
        alike(a.take(n), b.take(n)),
    decreases a.len(),
{
    lemma_alike_lengths(a, b);
    if n == a.len() {
        assert(a.take(n) =~= a);
        assert(b.take(n) =~= b);
    } else {
        lemma_alike_prefix(a.drop_last(), b.drop_last(), n);
        assert(a.drop_last().take(n) =~= a.take(n));
        assert(b.drop_last().take(n) =~= b.take(n));
    }
}

fn same_nodes(a: &Vec<LayerTreeNode>, b: &Vec<LayerTreeNode>) -> (r: bool)
    ensures
        r == alike(a@, b@),
    decreases a@,
{
    if a.len() != b.len() {
        proof {
            if alike(a@, b@) {
                lemma_alike_lengths(a@, b@);
            }
        }
        return false;
    }
    let mut index: usize = 0;
    assert(a@.take(0) =~= Seq::empty());
    assert(b@.take(0) =~= Seq::empty());
    while index < a.len()
        invariant
            index <= a@.len(),
            a@.len() == b@.len(),
            alike(a@.take(index as int), b@.take(index as int)),
        decreases a@.len() - index,
    {
        let ghost next_a = a@.take(index + 1);
        let ghost next_b = b@.take(index + 1);
        assert(next_a.drop_last() =~= a@.take(index as int));
        assert(next_b.drop_last() =~= b@.take(index as int));
        assert(decreases_to!(a@ => a@[index as int]));
        let same = match (&a[index], &b[index]) {
            (LayerTreeNode::Raster(x), LayerTreeNode::Raster(y)) => same_raster(x, y),
            (LayerTreeNode::Group(x), LayerTreeNode::Group(y)) => same_header(x, y) && same_nodes(
                &x.children,
                &y.children,
            ),
            _ => false,
        };
        assert(same == alike(next_a, next_b));
        if !same {
            proof {
                if alike(a@, b@) {
                    lemma_alike_prefix(a@, b@, index + 1);
                }
            }
            return false;
        }
        index = index + 1;
    }
    assert(a@.take(index as int) =~= a@);
    assert(b@.take(index as int) =~= b@);
    true
}

impl LayerTree {
    pub open spec fn agrees_with(self, other: LayerTree) -> bool {
        alike_headers(self.root, other.root) && alike(self.root.children@, other.root.children@)
    }

    /// Compares two trees by content.
    pub fn same(&self, other: &LayerTree) -> (r: bool)
        ensures
            r == self.agrees_with(*other),
    {
        same_header(&self.root, &other.root) && same_nodes(
            &self.root.children,
            &other.root.children,
        )
    }

    /// The node is part of the tree.
    pub open spec fn holds(self, node: LayerTreeNodeId) -> bool {
        node == LayerTreeNodeId::Group(self.root.id) || self.position(node) is Some
    }

    pub fn contains_node(&self, node: LayerTreeNodeId) -> (r: bool)
        ensures
            r == self.holds(node),
    {
        node == LayerTreeNodeId::Group(self.root.id) || self.parent_and_index(node).is_some()
    }
}

/// A confirmed change of artwork, as far as the canvas decides on it.
pub struct HistoryMove {
    /// The durable pixels changed; without that only the history view did.
    pub changes_tiles: bool,
    pub tree: Option<LayerTree>,
    pub canvas: Option<CanvasSpec>,
}

/// What happens to the scene's surfaces.
#[derive(Clone, Copy, Debug, PartialEq, Eq, Structural)]
pub enum SurfaceChange {
    Keep,
    ReplaceTree,
    ReplaceDocument(PixelSize),
}

/// How a change is shown.
#[derive(Clone, Copy, Debug, PartialEq, Eq, Structural)]
pub struct HistoryPlan {
    pub surfaces: SurfaceChange,
    /// Closed pixels have to be uploaded again.
    pub rebuild_surfaces: bool,
    pub clear_selection: bool,
}

pub open spec fn page_size(canvas: CanvasSpec) -> PixelSize {
    PixelSize { width: canvas.width_px, height: canvas.height_px }
}

impl HistoryMove {
    pub open spec fn page_changes(self, size: PixelSize) -> bool {
        self.canvas matches Some(canvas) && page_size(canvas) != size
    }

    pub open spec fn tree_changes(self, tree: LayerTree) -> bool {
        self.tree matches Some(next) && !next.agrees_with(tree)
    }

    pub open spec fn planned(self, tree: LayerTree, size: PixelSize) -> Option<HistoryPlan> {
        if self.changes_tiles {
            let rebuild = self.tree_changes(tree) || self.page_changes(size);
            Some(
                HistoryPlan {
                    surfaces: if self.page_changes(size) {
                        SurfaceChange::ReplaceDocument(page_size(self.canvas->0))
                    } else if rebuild {
                        SurfaceChange::ReplaceTree
                    } else {
                        SurfaceChange::Keep
                    },
                    rebuild_surfaces: rebuild,
                    clear_selection: self.tree is Some || self.canvas is Some,
                },
            )
        } else {
            None
        }
    }

    /// Plans how the change is shown on a scene with this tree and page. Closed
    /// pixels are reused only while their surfaces survive: tree and page
    /// changes upload everything again, so that restored layers and artwork
    /// that becomes visible are complete.
    pub fn plan(&self, tree: &LayerTree, size: PixelSize) -> (r: Option<HistoryPlan>)
        ensures
            r == self.planned(*tree, size),
    {
        if !self.changes_tiles {
            return None;
        }
        let tree_changes = match &self.tree {
            Some(next) => !next.same(tree),
            None => false,
        };
        let page = match self.canvas {
            Some(canvas) => {
                let next = PixelSize { width: canvas.width_px, height: canvas.height_px };
                if next == size {
                    None
                } else {
                    Some(next)
                }
            },
            None => None,
        };
        let surfaces = match page {
            Some(next) => SurfaceChange::ReplaceDocument(next),
            None => if tree_changes {
                SurfaceChange::ReplaceTree
            } else {
                SurfaceChange::Keep
            },
        };
        Some(
            HistoryPlan {
                surfaces,
                rebuild_surfaces: tree_changes || page.is_some(),
                clear_selection: self.tree.is_some() || self.canvas.is_some(),
            },
        )
    }
}

/// What the canvas keeps of the tree it shows.
#[derive(Clone, Copy, Debug, PartialEq, Eq, Structural)]
pub struct TreeState {
    pub next_layer_node_id: u128,
    pub solo: Option<LayerTreeNodeId>,
}

impl<P, D, A> CanvasState<P, D, A> {
    pub open spec fn selection_cleared(self) -> Self {
        CanvasState {
            edit: crate::session_open::resting_edit(),
            stroke: PipelineState { selection: None, ..self.stroke },
            ..self
        }
    }

    /// The canvas follows the tree that the scene now has.
    pub open spec fn history_followed(self, tree: LayerTree, clear_selection: bool) -> Self {
        let cleared = if clear_selection { self.selection_cleared() } else { self };
        let layer = crate::layer_tree::surviving_layer(tree, self.active_layer);
        CanvasState { active_layer: layer, ..cleared }.with_effect(
            InkEffect::SetAdmissionLayer(layer),
        )
    }
}

impl<P: Copy, D, A> ActiveCanvas<P, D, A> {
    /// Follows the tree that the scene now has: the selection, the active
    /// layer, the next identifier and the solo node.
    pub fn install_history_move(
        &mut self,
        tree: &LayerTree,
        clear_selection: bool,
        state: TreeState,
    ) -> (r: Result<TreeState, CommandRejectReason>)
        ensures
            final(self)@ == old(self)@.history_followed(*tree, clear_selection),
            tree.highest_id() == u128::MAX ==> r == Err::<TreeState, _>(
                CommandRejectReason::RevisionExhausted,
            ),
            tree.highest_id() < u128::MAX ==> (r matches Ok(next) && next.next_layer_node_id
                == crate::layer_tree::larger(
                state.next_layer_node_id as int,
                tree.highest_id() + 1,
            ) && next.solo == (match state.solo {
                Some(node) => if tree.holds(node) { Some(node) } else { None },
                None => None,
            })),
    {
        if clear_selection {
            self.stroke.selection = None;
            self.edit = EditProjection {
                busy: false,
                can_cancel: false,
                has_selection: false,
                selected_pixels: 0,
                error: None,
                transform: None,
            };
        }
        self.active_layer = valid_active_layer(tree, self.active_layer);
        self.stroke.effects.push(InkEffect::SetAdmissionLayer(self.active_layer));
        let fresh: u128 = match next_layer_node_id(tree) {
            Ok(fresh) => fresh,
            Err(_) => {
                return Err(CommandRejectReason::RevisionExhausted);
            },
        };
        let solo = match state.solo {
            Some(node) => if tree.contains_node(node) {
                Some(node)
            } else {
                None
            },
            None => None,
        };
        let next: u128 = if fresh > state.next_layer_node_id {
            fresh
        } else {
            state.next_layer_node_id
        };
        Ok(TreeState { next_layer_node_id: next, solo })
    }

    /// The change is shown, with every tile of its snapshot. Older previews are
    /// forgotten, and input resumes unless a job still holds it.
    pub fn history_installed(&mut self, previews: &mut GpuState)
        ensures
            final(previews).wf(),
            final(previews)@ == old(previews)@.forgotten(),
            final(self)@ == (if old(self)@.artwork_job is None {
                old(self)@.with_effect(InkEffect::ResumeAfterEdit)
            } else {
                old(self)@
            }),
    {
        previews.forget_previews();
        if self.artwork_job.is_none() {
            self.stroke.effects.push(InkEffect::ResumeAfterEdit);
        }
    }
}

/// The tiles of the layers that the tree has.
pub fn uploads_of_tree(keys: &Vec<TileKey>, tree: &LayerTree) -> (r: Vec<TileKey>)
    ensures
        r@ == keys@.filter(|key: TileKey| tree.holds(LayerTreeNodeId::Raster(key.layer))),
{
    let ghost kept = |key: TileKey| tree.holds(LayerTreeNodeId::Raster(key.layer));
    let mut uploads: Vec<TileKey> = Vec::new();
    let mut index: usize = 0;
    proof {
        assert(keys@.take(0).filter(kept) =~= Seq::empty()) by {
            reveal(Seq::filter);
        }
    }
    while index < keys.len()
        invariant
            index <= keys@.len(),
            kept == (|key: TileKey| tree.holds(LayerTreeNodeId::Raster(key.layer))),
            uploads@ == keys@.take(index as int).filter(kept),
        decreases keys@.len() - index,
    {
        let key = keys[index];
        let keep = tree.contains_node(LayerTreeNodeId::Raster(key.layer));
        proof {
            assert(keys@.take(index + 1).drop_last() =~= keys@.take(index as int));
            reveal(Seq::filter);
        }
        if keep {
            uploads.push(key);
        }
        index = index + 1;
    }
    assert(keys@.take(index as int) =~= keys@);
    uploads
}

/// A tree agrees with itself, so that a change which repeats the shown tree and
/// page keeps every surface.
pub proof fn repeated_trees_keep_their_surfaces(moved: HistoryMove, tree: LayerTree, size: PixelSize)
    requires
        moved.changes_tiles,
        moved.tree is None || moved.tree == Some(tree),
        moved.canvas is None || page_size(moved.canvas->0) == size,
    ensures
        moved.planned(tree, size) matches Some(plan) && plan.surfaces is Keep
            && !plan.rebuild_surfaces,
{
    lemma_alike_itself(tree.root.children@);
}

proof fn lemma_alike_itself(nodes: Seq<LayerTreeNode>)
    ensures
        alike(nodes, nodes),
    decreases nodes,
{
    if nodes.len() > 0 {
        lemma_alike_itself(nodes.drop_last());
        if let LayerTreeNode::Group(group) = nodes.last() {
            assert(decreases_to!(nodes => nodes[nodes.len() - 1]));
            lemma_alike_itself(group.children@);
        }
    }
}

} // verus!
