//! What layer commands do to the tree, and what the canvas keeps of a tree.
use vstd::prelude::*;

use crate::canvas::{ActiveCanvas, CanvasState};
use crate::command::CommandRejectReason;
use crate::document::{GroupId, LayerId, LayerTreeNodeId, PixelSize};
use crate::effect::InkEffect;
use crate::history_install::{
    alike, alike_headers, alike_rasters, uploads_of_tree, HistoryMove, SurfaceChange, TreeState,
};
use crate::layer_command::{
    after_delete, apply_layer_command, layer_commit, paste_layer, tree_edit_rejection, AfterDelete,
    LayerCommand, LayerCommitStep, LayerPixelChange, LayerPlan, TreeEdit, TreeError,
};
use crate::layer_tree::{
    default_node_name, groups_below, position_below, raster_ids, raster_layer_ids, raster_named,
    rasters_below, surviving_layer, GroupNode, LayerNode, LayerTree, LayerTreeNode,
};
use crate::tile_map::TileKey;

verus! {

/// A setting of a layer reaches the tree as it was asked for, on the node it
/// was asked for, and brings neither pixels nor another active layer.
pub proof fn settings_reach_their_node(
    tree: LayerTree,
    active: LayerId,
    next_id: u128,
    command: LayerCommand,
    plan: LayerPlan,
)
    requires
        call_ensures(
            apply_layer_command,
            (&tree, active, next_id, &command),
            Ok::<_, CommandRejectReason>(plan),
        ),
        !(command is AddRaster) && !(command is AddGroup) && !(command is AddWhiteBackground) && !(
        command is DuplicateRaster),
    ensures
        plan.active == active,
        plan.pixel_change is None,
        match plan.edit {
            TreeEdit::SetVisibility { node, visible } => command == (LayerCommand::SetVisibility {
                node,
                visible,
            }),
            TreeEdit::SetOpacity { node, opacity_u16 } => command == (LayerCommand::SetOpacity {
                node,
                opacity_u16,
            }),
            TreeEdit::SetBlendMode { node, blend_mode } => command == (LayerCommand::SetBlendMode {
                node,
                blend_mode,
            }),
            TreeEdit::SetClipToBelow { node, clip_to_below } => command == (
            LayerCommand::SetClipToBelow { node, clip_to_below }),
            TreeEdit::SetAlphaLocked { layer, alpha_locked } => command == (
            LayerCommand::SetAlphaLocked { layer, alpha_locked }),
            TreeEdit::SetLocked { layer, locked } => command == (LayerCommand::SetLocked {
                layer,
                locked,
            }),
            TreeEdit::SetReference { layer, reference } => command == (LayerCommand::SetReference {
                layer,
                reference,
            }),
            TreeEdit::Rename { node, name } => command matches LayerCommand::Rename {
                node: asked,
                name: given,
            } && asked == node && given@ == name@,
            TreeEdit::Reorder { node, new_parent, index } => command == (LayerCommand::Reorder {
                node,
                new_parent,
                index,
            }),
            TreeEdit::Remove(node) => command == LayerCommand::Delete(node),
            _ => false,
        },
{
}

/// A new node takes the next identifier and stands directly above the active
/// layer; a raster becomes the active one, a group does not.
pub proof fn new_nodes_stand_above_the_active(
    tree: LayerTree,
    active: LayerId,
    next_id: u128,
    command: LayerCommand,
    plan: LayerPlan,
)
    requires
        call_ensures(
            apply_layer_command,
            (&tree, active, next_id, &command),
            Ok::<_, CommandRejectReason>(plan),
        ),
        command is AddRaster || command is AddGroup,
    ensures
        plan.pixel_change is None,
        command is AddRaster ==> plan.active == LayerId(next_id),
        command is AddGroup ==> plan.active == active,
        command is AddRaster ==> (plan.edit matches TreeEdit::InsertRaster {
            parent,
            index,
            id,
            name,
        } && id == LayerId(next_id) && name@ == default_node_name(tree, false) && (tree.position(
            LayerTreeNodeId::Raster(active),
        ) matches Some(found) ==> parent == found.0 && index - found.1 == 1) && (tree.position(
            LayerTreeNodeId::Raster(active),
        ) is None ==> parent == tree.root.id && index == tree.root.children@.len())),
        command is AddGroup ==> (plan.edit matches TreeEdit::InsertGroup {
            parent,
            index,
            id,
            name,
        } && id == GroupId(next_id) && name@ == default_node_name(tree, true) && (tree.position(
            LayerTreeNodeId::Raster(active),
        ) matches Some(found) ==> parent == found.0 && index - found.1 == 1)),
{
}

/// A white background is a new raster at the very bottom and brings its white;
/// a copy brings the pixels of its source and becomes active.
pub proof fn new_pixels_come_with_their_layer(
    tree: LayerTree,
    active: LayerId,
    next_id: u128,
    source: LayerId,
    white: LayerPlan,
    copy: LayerPlan,
)
    requires
        call_ensures(
            apply_layer_command,
            (&tree, active, next_id, &LayerCommand::AddWhiteBackground),
            Ok::<_, CommandRejectReason>(white),
        ),
        call_ensures(
            apply_layer_command,
            (&tree, active, next_id, &LayerCommand::DuplicateRaster(source)),
            Ok::<_, CommandRejectReason>(copy),
        ),
    ensures
        white.active == active,
        white.pixel_change == Some(LayerPixelChange::White(LayerId(next_id))),
        white.edit matches TreeEdit::InsertRaster { parent, index, id, name } && parent
            == tree.root.id && index == 0 && id.0 == next_id,
        copy.active == LayerId(next_id),
        copy.pixel_change == Some(
            LayerPixelChange::Duplicate { source, destination: LayerId(next_id) },
        ),
        copy.edit matches TreeEdit::DuplicateRaster { source: from, destination } && from == source
            && destination.0 == next_id,
{
}

/// Only a command that needs an identifier can run out of them.
pub proof fn commands_fail_only_without_identifiers(
    tree: LayerTree,
    active: LayerId,
    next_id: u128,
    command: LayerCommand,
    reason: CommandRejectReason,
)
    requires
        call_ensures(
            apply_layer_command,
            (&tree, active, next_id, &command),
            Err::<LayerPlan, _>(reason),
        ),
    ensures
        reason is RevisionExhausted,
        next_id == u128::MAX,
        command is AddRaster || command is AddGroup || command is AddWhiteBackground || command
            is DuplicateRaster,
{
}

/// A refused removal of a locked node says so; a refused place is an invalid
/// move; anything else names no known layer.
pub proof fn refusals_of_the_tree_say_why(
    edit: TreeEdit,
    error: TreeError,
    reason: CommandRejectReason,
)
    requires
        call_ensures(tree_edit_rejection, (&edit, error), reason),
    ensures
        reason is LayerLocked <==> edit is Remove && error is LockedNode,
        reason is InvalidLayerMove <==> edit is InsertRaster || edit is InsertGroup || edit
            is Reorder,
        reason is LayerLocked || reason is InvalidLayerMove || reason is UnknownLayer,
{
}

/// After a removal the active layer stays where it is still there, else the
/// topmost raster takes over; an empty tree gets a new raster, on top and
/// active.
pub proof fn removals_leave_an_active_layer(
    tree: LayerTree,
    active: LayerId,
    next_id: u128,
    after: AfterDelete,
)
    requires
        call_ensures(
            after_delete,
            (&tree, active, next_id),
            Ok::<_, CommandRejectReason>(after),
        ),
    ensures
        tree.has_raster(active) ==> after.active == active && after.replacement is None,
        tree.rasters().len() > 0 && !tree.has_raster(active) ==> after.replacement is None
            && after.active == tree.rasters()[tree.rasters().len() - 1].id,
        tree.rasters().len() == 0 ==> after.active.0 == next_id && (
        after.replacement matches Some(TreeEdit::InsertRaster { parent, index, id, name }) && id
            == after.active && parent == tree.root.id && index == tree.root.children@.len()),
{
    if tree.rasters().len() == 0 {
        assert(raster_ids(tree.rasters()).len() == 0);
    }
}

/// A layer change that is needed and fits goes to the writer and activates its
/// layer; one that does not fit fails; one that is not needed is done.
pub proof fn layer_changes_are_committed(needed: bool, tree_fits: bool, active: LayerId)
    ensures
        layer_commit(needed, tree_fits, active) matches LayerCommitStep::Queue(job) ==> needed
            && tree_fits && job.active_layer == Some(active) && job.transform is None
            && job.temporary_picker is None && job.picker_token is None,
        needed && tree_fits ==> layer_commit(needed, tree_fits, active) is Queue,
        !needed ==> layer_commit(needed, tree_fits, active) == LayerCommitStep::Return(Ok(false)),
        needed && !tree_fits ==> layer_commit(needed, tree_fits, active)
            == LayerCommitStep::Return(Err(CommandRejectReason::WorkspaceFailed)),
{
}

/// A pasted layer would stand directly above the active one, under an
/// identifier that no node has; an unknown active layer takes no paste.
pub proof fn pastes_stand_above_the_active(
    tree: LayerTree,
    active: LayerId,
    pasted: Result<TreeEdit, CommandRejectReason>,
)
    requires
        call_ensures(paste_layer, (&tree, active), pasted),
    ensures
        tree.position(LayerTreeNodeId::Raster(active)) is None ==> pasted == Err::<TreeEdit, _>(
            CommandRejectReason::UnknownLayer,
        ),
        pasted matches Ok(edit) ==> (edit matches TreeEdit::InsertRaster {
            parent,
            index,
            id,
            name,
        } && !tree.has_raster(id) && (tree.position(
            LayerTreeNodeId::Raster(active),
        ) matches Some(found) && parent == found.0 && index == found.1 + 1)),
{
    if let Ok(edit) = pasted {
        if let TreeEdit::InsertRaster { parent, index, id, name } = edit {
            crate::layer_tree::next_id_is_fresh(tree, id.0);
        }
    }
}

/// A preferred layer is kept where the tree has it; the layer that is taken
/// instead is the topmost one.
pub proof fn surviving_layers_exist(tree: LayerTree, preferred: LayerId)
    ensures
        tree.has_raster(preferred) ==> surviving_layer(tree, preferred) == preferred,
        tree.rasters().len() > 0 ==> tree.has_raster(surviving_layer(tree, preferred)),
        tree.rasters().len() > 0 && !tree.has_raster(preferred) ==> surviving_layer(tree, preferred)
            == tree.rasters()[tree.rasters().len() - 1].id,
        tree.rasters().len() == 0 ==> surviving_layer(tree, preferred).0 == 1,
{
    if tree.rasters().len() > 0 {
        let ids = raster_ids(tree.rasters());
        assert(ids[ids.len() - 1] == tree.rasters().last().id);
    } else {
        assert(raster_ids(tree.rasters()).len() == 0);
    }
}

/// A raster that is found has the identifier, and one is found exactly where
/// the tree has it.
pub proof fn found_rasters_are_the_asked(rasters: Seq<LayerNode>, layer: LayerId)
    ensures
        raster_named(rasters, layer) matches Some(found) ==> found.id == layer && rasters.contains(
            found,
        ),
        raster_named(rasters, layer) is Some <==> raster_ids(rasters).contains(layer),
    decreases rasters.len(),
{
    let ids = raster_ids(rasters);
    if rasters.len() > 0 {
        found_rasters_are_the_asked(rasters.drop_last(), layer);
        let before = raster_ids(rasters.drop_last());
        if let Some(found) = raster_named(rasters, layer) {
            if raster_named(rasters.drop_last(), layer) is Some {
                let i = choose|i: int|
                    0 <= i < rasters.drop_last().len() && rasters.drop_last()[i] == found;
                assert(rasters[i] == found);
                assert(ids[i] == layer);
            } else {
                assert(rasters[rasters.len() - 1] == found);
                assert(ids[rasters.len() - 1] == layer);
            }
        }
        if ids.contains(layer) {
            let i = choose|i: int| 0 <= i < ids.len() && ids[i] == layer;
            if i < rasters.len() - 1 {
                assert(before[i] == layer);
            }
        }
    } else {
        assert(ids.len() == 0);
    }
}

/// Ink goes by the locks of its layer; a layer that is not there takes none.
pub proof fn locks_come_from_the_layer(tree: LayerTree, layer: LayerId)
    ensures
        tree.focus_on(layer).layer == layer,
        raster_named(tree.rasters(), layer) matches Some(found) ==> tree.focus_on(layer).locked
            == found.locked && tree.focus_on(layer).alpha_locked == found.alpha_locked,
        !tree.has_raster(layer) ==> tree.focus_on(layer).locked,
{
    found_rasters_are_the_asked(tree.rasters(), layer);
}

/// A position names the group that holds the node and its place there.
pub proof fn positions_name_the_place(
    children: Seq<LayerTreeNode>,
    parent: GroupId,
    node: LayerTreeNodeId,
)
    ensures
        position_below(children, parent, node) matches Some(found) ==> {
            ||| found.0 == parent && 0 <= found.1 < children.len() && children[found.1].node_id()
                == node
            ||| exists|i: int|
                0 <= i < groups_below(children).len() && (#[trigger] groups_below(children)[i]).id
                    == found.0 && 0 <= found.1 < groups_below(children)[i].children@.len()
                    && groups_below(children)[i].children@[found.1].node_id() == node
        },
        children.len() > 0 && position_below(children, parent, node) is None ==> forall|i: int|
            0 <= i < children.len() ==> (#[trigger] children[i]).node_id() != node,
    decreases children,
{
    if children.len() > 0 {
        let before = children.drop_last();
        positions_name_the_place(before, parent, node);
        if position_below(before, parent, node) is Some {
            let found = position_below(before, parent, node)->0;
            if !(found.0 == parent && 0 <= found.1 < before.len() && before[found.1].node_id()
                == node) {
                let i = choose|i: int|
                    0 <= i < groups_below(before).len() && (#[trigger] groups_below(before)[i]).id
                        == found.0 && 0 <= found.1 < groups_below(before)[i].children@.len()
                        && groups_below(before)[i].children@[found.1].node_id() == node;
                assert(groups_below(children)[i] == groups_below(before)[i]);
            }
        } else if children.last().node_id() == node {
        } else if let LayerTreeNode::Group(group) = children.last() {
            positions_name_the_place(group.children@, group.id, node);
            let inner = seq![group] + groups_below(group.children@);
            let shift = groups_below(before).len() as int;
            assert(groups_below(children) =~= groups_below(before) + inner);
            if position_below(group.children@, group.id, node) is Some {
                let found = position_below(group.children@, group.id, node)->0;
                if found.0 == group.id && 0 <= found.1 < group.children@.len()
                    && group.children@[found.1].node_id() == node {
                    assert(groups_below(children)[shift] == group);
                } else {
                    let i = choose|i: int|
                        0 <= i < groups_below(group.children@).len() && (#[trigger] groups_below(
                            group.children@,
                        )[i]).id == found.0 && 0 <= found.1 < groups_below(
                            group.children@,
                        )[i].children@.len() && groups_below(
                            group.children@,
                        )[i].children@[found.1].node_id() == node;
                    assert(groups_below(children)[shift + 1 + i] == groups_below(
                        group.children@,
                    )[i]);
                }
            }
        }
        if position_below(children, parent, node) is None {
            assert forall|i: int| 0 <= i < children.len() implies (
            #[trigger] children[i]).node_id() != node by {
                if i < children.len() - 1 {
                    assert(before[i] == children[i]);
                }
            }
        }
    }
}

/// The rows show the topmost raster first and the bottom one last.
pub proof fn rows_run_from_the_top(tree: LayerTree, rows: Vec<LayerId>)
    requires
        call_ensures(raster_layer_ids, (&tree,), rows),
    ensures
        rows@.len() == tree.rasters().len(),
        forall|i: int|
            0 <= i < rows@.len() ==> (#[trigger] rows@[i]) == tree.rasters()[rows@.len() - 1
                - i].id,
{
}

/// A new node is named by its kind and one more than there are of it.
pub proof fn new_nodes_are_numbered(tree: LayerTree)
    ensures
        tree.rasters().len() < usize::MAX ==> default_node_name(tree, false) == "Layer "@
            + crate::decimal::decimal((tree.rasters().len() + 1) as nat),
        tree.groups().len() < usize::MAX ==> default_node_name(tree, true) == "Group "@
            + crate::decimal::decimal((tree.groups().len() + 1) as nat),
{
}

/// Rasters agree only where every setting, the name and the content do.
pub proof fn alike_rasters_agree_in_everything(a: LayerNode, b: LayerNode)
    ensures
        alike_rasters(a, b) <==> {
            &&& a.id == b.id && a.name@ == b.name@ && a.content_root == b.content_root
            &&& a.visible == b.visible && a.locked == b.locked && a.reference == b.reference
            &&& a.alpha_locked == b.alpha_locked && a.clip_to_below == b.clip_to_below
            &&& a.blend_mode == b.blend_mode && a.opacity_u16 == b.opacity_u16
        },
{
}

/// Groups agree only where every setting and the name do.
pub proof fn alike_groups_agree_in_everything(a: GroupNode, b: GroupNode)
    ensures
        alike_headers(a, b) <==> {
            &&& a.id == b.id && a.name@ == b.name@ && a.visible == b.visible
            &&& a.clip_to_below == b.clip_to_below && a.blend_mode == b.blend_mode
            &&& a.opacity_u16 == b.opacity_u16
        },
{
}

/// Trees that agree hold the same rasters in the same order, each with the same
/// content and settings.
pub proof fn alike_trees_hold_the_same_rasters(a: Seq<LayerTreeNode>, b: Seq<LayerTreeNode>)
    requires
        alike(a, b),
    ensures
        a.len() == b.len(),
        rasters_below(a).len() == rasters_below(b).len(),
        forall|i: int|
            0 <= i < rasters_below(a).len() ==> {
                let x = #[trigger] rasters_below(a)[i];
                let y = rasters_below(b)[i];
                &&& x.id == y.id && x.name@ == y.name@ && x.content_root == y.content_root
                &&& x.visible == y.visible && x.opacity_u16 == y.opacity_u16 && x.blend_mode
                    == y.blend_mode
                &&& x.locked == y.locked && x.alpha_locked == y.alpha_locked && x.reference
                    == y.reference && x.clip_to_below == y.clip_to_below
            },
    decreases a,
{
    if a.len() > 0 {
        alike_trees_hold_the_same_rasters(a.drop_last(), b.drop_last());
        if let LayerTreeNode::Group(x) = a.last() {
            if let LayerTreeNode::Group(y) = b.last() {
                alike_trees_hold_the_same_rasters(x.children@, y.children@);
            }
        }
    }
}

/// A change of the artwork replaces the document where the page changed, the
/// tree where only that changed, and otherwise keeps every surface. It clears
/// the selection with any tree or page that it brings.
pub proof fn history_moves_are_shown(moved: HistoryMove, tree: LayerTree, size: PixelSize)
    ensures
        moved.planned(tree, size) is Some <==> moved.changes_tiles,
        moved.planned(tree, size) matches Some(plan) ==> {
            let paged = moved.canvas matches Some(canvas) && (canvas.width_px != size.width
                || canvas.height_px != size.height);
            let treed = moved.tree matches Some(next) && !next.agrees_with(tree);
            &&& plan.clear_selection <==> moved.tree is Some || moved.canvas is Some
            &&& plan.rebuild_surfaces <==> paged || treed
            &&& paged ==> (plan.surfaces matches SurfaceChange::ReplaceDocument(page)
                && page.width == moved.canvas->0.width_px && page.height
                == moved.canvas->0.height_px)
            &&& !paged && treed ==> plan.surfaces is ReplaceTree
            &&& !paged && !treed ==> plan.surfaces is Keep
        },
{
}

/// After a move through the history the active layer is one of the tree's, new
/// contacts go to it, and the selection is gone exactly where it is to be
/// cleared.
pub proof fn history_moves_keep_a_layer<P, D, A>(
    state: CanvasState<P, D, A>,
    tree: LayerTree,
    clear: bool,
)
    ensures
        ({
            let after = state.history_followed(tree, clear);
            &&& tree.rasters().len() > 0 ==> tree.has_raster(after.active_layer)
            &&& tree.has_raster(state.active_layer) ==> after.active_layer == state.active_layer
            &&& after.stroke.effects == state.stroke.effects.push(
                InkEffect::SetAdmissionLayer(after.active_layer),
            )
            &&& clear ==> after.stroke.selection is None && !after.edit.has_selection
                && after.edit.selected_pixels == 0
            &&& !clear ==> after.stroke.selection == state.stroke.selection && after.edit
                == state.edit
            &&& after.drawing == state.drawing
            &&& after.stroke.backlog == state.stroke.backlog
            &&& after.stroke.active == state.stroke.active
            &&& after.artwork_job == state.artwork_job
        }),
{
    surviving_layers_exist(tree, state.active_layer);
}

proof fn lemma_highest_is_an_identifier(children: Seq<LayerTreeNode>)
    ensures
        0 <= crate::layer_tree::highest_below(children) <= u128::MAX,
    decreases children,
{
    if children.len() > 0 {
        lemma_highest_is_an_identifier(children.drop_last());
        if let LayerTreeNode::Group(group) = children.last() {
            lemma_highest_is_an_identifier(group.children@);
        }
    }
}

/// New identifiers lie above every one that the tree has or had; a layer shown
/// alone stays so only while the tree has it.
pub proof fn identifiers_are_never_reused<P: Copy, D, A>(
    tree: LayerTree,
    clear: bool,
    state: TreeState,
)
    ensures
        forall|canvas: &mut ActiveCanvas<P, D, A>, next: Result<TreeState, CommandRejectReason>|
            #[trigger] call_ensures(
                ActiveCanvas::<P, D, A>::install_history_move,
                (canvas, &tree, clear, state),
                next,
            ) ==> (next matches Ok(kept) ==> {
                &&& kept.next_layer_node_id >= state.next_layer_node_id
                &&& kept.next_layer_node_id > tree.highest_id()
                &&& kept.next_layer_node_id == state.next_layer_node_id || kept.next_layer_node_id
                    == tree.highest_id() + 1
                &&& kept.solo matches Some(node) ==> state.solo == Some(node) && tree.holds(node)
                &&& kept.solo is None ==> state.solo is None || !tree.holds(state.solo->0)
            }),
{
    lemma_highest_is_an_identifier(tree.root.children@);
}

/// The tiles to upload are those of the tree's layers, in the order given.
pub proof fn uploads_belong_to_the_tree(
    keys: Vec<TileKey>,
    tree: LayerTree,
    uploads: Vec<TileKey>,
    key: TileKey,
)
    requires
        call_ensures(uploads_of_tree, (&keys, &tree), uploads),
    ensures
        uploads@.contains(key) <==> keys@.contains(key) && tree.position(
            LayerTreeNodeId::Raster(key.layer),
        ) is Some,
        uploads@.len() <= keys@.len(),
{
    let kept = |key: TileKey| tree.holds(LayerTreeNodeId::Raster(key.layer));
    assert(uploads@ == keys@.filter(kept));
    keys@.lemma_filter_len(kept);
    if uploads@.contains(key) {
        let i = choose|i: int| 0 <= i < uploads@.len() && uploads@[i] == key;
        keys@.lemma_filter_pred(kept, i);
        keys@.lemma_filter_contains_rev(kept, key);
    }
    if keys@.contains(key) && kept(key) {
        let i = choose|i: int| 0 <= i < keys@.len() && keys@[i] == key;
        keys@.lemma_filter_contains(kept, i);
    }
}

/// A new raster can be seen and drawn on and holds no artwork; a new document
/// has one such raster and nothing else.
pub proof fn new_documents_have_one_raster(
    id: LayerId,
    name: String,
    raster: LayerNode,
    tree: LayerTree,
)
    requires
        call_ensures(crate::layer_tree::empty_raster, (id, name), raster),
        call_ensures(crate::layer_tree::default_layer_tree, (), tree),
    ensures
        raster.id == id,
        raster.name@ == name@,
        raster.visible && !raster.locked && !raster.alpha_locked && !raster.clip_to_below
            && !raster.reference,
        raster.opacity_u16 == 65_535,
        raster.content_root == 0,
        raster.blend_mode is Normal,
        tree.root.children@.len() == 1,
        tree.root.children@[0] matches LayerTreeNode::Raster(first) && first.id == LayerId(1)
            && first.visible && !first.locked && first.opacity_u16 == 65_535,
        tree.root.visible && tree.root.opacity_u16 == 65_535,
{
}

/// An old project without layer metadata shows its background below its ink.
pub proof fn old_projects_show_their_background(tree: LayerTree)
    requires
        call_ensures(crate::layer_tree::legacy_layer_tree, (), tree),
    ensures
        tree.root.children@.len() == 2,
        tree.root.children@[0] matches LayerTreeNode::Raster(background) && background.id == LayerId(
            2,
        ) && background.visible,
        tree.root.children@[1] matches LayerTreeNode::Group(ink) && ink.visible
            && ink.children@.len() == 1 && (ink.children@[0] matches LayerTreeNode::Raster(live)
            && live.id == LayerId(1) && live.visible && !live.locked),
{
}

} // verus!
