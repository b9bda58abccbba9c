//! Layer commands: the tree edit that each of them stands for, and what has to
//! hold before and after it.
use vstd::prelude::*;

use crate::canvas::{ArtworkJob, CanvasState};
use crate::command::CommandRejectReason;
use crate::document::{GroupId, LayerId, LayerTreeNodeId};
use crate::layer_tree::{
    next_default_node_name, next_layer_node_id, raster_layer_ids, valid_active_layer, LayerTree,
};

verus! {

#[derive(Clone, Copy, Debug, PartialEq, Eq, Hash, Structural)]
pub enum LayerBlendMode {
    Normal,
    Multiply,
}

#[derive(Clone, Debug, PartialEq, Eq)]
pub enum LayerCommand {
    SetActive(LayerId),
    ToggleSolo(LayerTreeNodeId),
    AddRaster,
    AddGroup,
    AddWhiteBackground,
    DuplicateRaster(LayerId),
    Delete(LayerTreeNodeId),
    Rename { node: LayerTreeNodeId, name: String },
    SetReference { layer: LayerId, reference: bool },
    SetLocked { layer: LayerId, locked: bool },
    SetAlphaLocked { layer: LayerId, alpha_locked: bool },
    SetClipToBelow { node: LayerTreeNodeId, clip_to_below: bool },
    SetBlendMode { node: LayerTreeNodeId, blend_mode: LayerBlendMode },
    SetVisibility { node: LayerTreeNodeId, visible: bool },
    SetOpacity { node: LayerTreeNodeId, opacity_u16: u16 },
    Reorder { node: LayerTreeNodeId, new_parent: GroupId, index: usize },
}

/// Pixels that change together with the tree.
#[derive(Clone, Copy, Debug, PartialEq, Eq, Structural)]
pub enum LayerPixelChange {
    /// The layer is filled with opaque white within the page.
    White(LayerId),
    Duplicate { source: LayerId, destination: LayerId },
}

/// One change of the layer tree.
#[derive(Debug)]
pub enum TreeEdit {
    InsertRaster { parent: GroupId, index: usize, id: LayerId, name: String },
    InsertGroup { parent: GroupId, index: usize, id: GroupId, name: String },
    DuplicateRaster { source: LayerId, destination: LayerId },
    Remove(LayerTreeNodeId),
    Rename { node: LayerTreeNodeId, name: String },
    SetReference { layer: LayerId, reference: bool },
    SetLocked { layer: LayerId, locked: bool },
    SetAlphaLocked { layer: LayerId, alpha_locked: bool },
    SetClipToBelow { node: LayerTreeNodeId, clip_to_below: bool },
    SetBlendMode { node: LayerTreeNodeId, blend_mode: LayerBlendMode },
    SetVisibility { node: LayerTreeNodeId, visible: bool },
    SetOpacity { node: LayerTreeNodeId, opacity_u16: u16 },
    Reorder { node: LayerTreeNodeId, new_parent: GroupId, index: usize },
}

/// What a layer command amounts to: a tree edit, the layer to activate and the
/// pixels that change with it.
#[derive(Debug)]
pub struct LayerPlan {
    pub edit: TreeEdit,
    pub active: LayerId,
    pub pixel_change: Option<LayerPixelChange>,
}

/// Why the tree refused an edit.
#[derive(Clone, Copy, Debug, PartialEq, Eq, Structural)]
pub enum TreeError {
    LockedNode,
    Other,
}

/// The place above a layer: behind it among its siblings, else on top of the
/// root.
pub open spec fn place_above(tree: LayerTree, layer: LayerId) -> (GroupId, int) {
    match tree.position(LayerTreeNodeId::Raster(layer)) {
        Some(found) => (found.0, found.1 + 1),
        None => (tree.root.id, tree.root.children@.len() as int),
    }
}

/// Commands that make a node need one more identifier.
pub open spec fn takes_new_id(command: LayerCommand) -> bool {
    command is AddRaster || command is AddGroup || command is DuplicateRaster
        || command is AddWhiteBackground
}

/// `plan` carries out `command` on `tree`.
pub open spec fn plans(
    plan: LayerPlan,
    tree: LayerTree,
    active: LayerId,
    next_id: u128,
    command: LayerCommand,
) -> bool {
    &&& plan.active == (if command is AddRaster || command is DuplicateRaster {
        LayerId(next_id)
    } else {
        active
    })
    &&& plan.pixel_change == (match command {
        LayerCommand::DuplicateRaster(source) => Some(
            LayerPixelChange::Duplicate { source, destination: LayerId(next_id) },
        ),
        LayerCommand::AddWhiteBackground => Some(LayerPixelChange::White(LayerId(next_id))),
        _ => None,
    })
    &&& match command {
        LayerCommand::AddRaster => plan.edit matches TreeEdit::InsertRaster {
            parent,
            index,
            id,
            name,
        } && parent == place_above(tree, active).0 && index == place_above(tree, active).1 && id
            == LayerId(next_id) && name@ == crate::layer_tree::default_node_name(tree, false),
        LayerCommand::AddGroup => plan.edit matches TreeEdit::InsertGroup {
            parent,
            index,
            id,
            name,
        } && parent == place_above(tree, active).0 && index == place_above(tree, active).1 && id
            == GroupId(next_id) && name@ == crate::layer_tree::default_node_name(tree, true),
        LayerCommand::AddWhiteBackground => plan.edit matches TreeEdit::InsertRaster {
            parent,
            index,
            id,
            name,
        } && parent == tree.root.id && index == 0 && id == LayerId(next_id) && name@ == "White"@,
        LayerCommand::DuplicateRaster(source) => plan.edit == (TreeEdit::DuplicateRaster {
            source,
            destination: LayerId(next_id),
        }),
        LayerCommand::Delete(node) => plan.edit == TreeEdit::Remove(node),
        LayerCommand::Rename { node, name } => plan.edit matches TreeEdit::Rename {
            node: renamed,
            name: given,
        } && renamed == node && given@ == name@,
        LayerCommand::SetReference { layer, reference } => plan.edit == (TreeEdit::SetReference {
            layer,
            reference,
        }),
        LayerCommand::SetLocked { layer, locked } => plan.edit == (TreeEdit::SetLocked {
            layer,
            locked,
        }),
        LayerCommand::SetAlphaLocked { layer, alpha_locked } => plan.edit == (
        TreeEdit::SetAlphaLocked { layer, alpha_locked }),
        LayerCommand::SetClipToBelow { node, clip_to_below } => plan.edit == (
        TreeEdit::SetClipToBelow { node, clip_to_below }),
        LayerCommand::SetBlendMode { node, blend_mode } => plan.edit == (TreeEdit::SetBlendMode {
            node,
            blend_mode,
        }),
        LayerCommand::SetVisibility { node, visible } => plan.edit == (TreeEdit::SetVisibility {
            node,
            visible,
        }),
        LayerCommand::SetOpacity { node, opacity_u16 } => plan.edit == (TreeEdit::SetOpacity {
            node,
            opacity_u16,
        }),
        LayerCommand::Reorder { node, new_parent, index } => plan.edit == (TreeEdit::Reorder {
            node,
            new_parent,
            index,
        }),
        LayerCommand::SetActive(_) | LayerCommand::ToggleSolo(_) => false,
    }
}

fn find_place_above(tree: &LayerTree, layer: LayerId) -> (r: (GroupId, usize))
    ensures
        r.0 == place_above(*tree, layer).0,
        r.1 == place_above(*tree, layer).1,
{
    match tree.parent_and_index(LayerTreeNodeId::Raster(layer)) {
        Some((parent, index)) => (parent, index + 1),
        None => (tree.root_id(), tree.root.children.len()),
    }
}

/// The tree edit that a layer command stands for. Session commands, which
/// change no tree, are not layer edits.
pub fn apply_layer_command(
    tree: &LayerTree,
    active: LayerId,
    next_id: u128,
    command: &LayerCommand,
) -> (r: Result<LayerPlan, CommandRejectReason>)
    requires
        !(command is SetActive),
        !(command is ToggleSolo),
    ensures
        match r {
            Ok(plan) => plans(plan, *tree, active, next_id, *command) && (takes_new_id(*command)
                ==> next_id < u128::MAX),
            Err(reason) => reason is RevisionExhausted && takes_new_id(*command) && next_id
                == u128::MAX,
        },
{
    let exhausted = next_id == u128::MAX;
    let edit = match command {
        LayerCommand::AddRaster => {
            if exhausted {
                return Err(CommandRejectReason::RevisionExhausted);
            }
            let (parent, index) = find_place_above(tree, active);
            let name = next_default_node_name(tree, false);
            let edit = TreeEdit::InsertRaster { parent, index, id: LayerId(next_id), name };
            return Ok(LayerPlan { edit, active: LayerId(next_id), pixel_change: None });
        },
        LayerCommand::AddGroup => {
            if exhausted {
                return Err(CommandRejectReason::RevisionExhausted);
            }
            let (parent, index) = find_place_above(tree, active);
            let name = next_default_node_name(tree, true);
            TreeEdit::InsertGroup { parent, index, id: GroupId(next_id), name }
        },
        LayerCommand::AddWhiteBackground => {
            if exhausted {
                return Err(CommandRejectReason::RevisionExhausted);
            }
            let layer = LayerId(next_id);
            let edit = TreeEdit::InsertRaster {
                parent: tree.root_id(),
                index: 0,
                id: layer,
                name: "White".to_owned(),
            };
            return Ok(
                LayerPlan { edit, active, pixel_change: Some(LayerPixelChange::White(layer)) },
            );
        },
        LayerCommand::DuplicateRaster(source) => {
            if exhausted {
                return Err(CommandRejectReason::RevisionExhausted);
            }
            let destination = LayerId(next_id);
            return Ok(
                LayerPlan {
                    edit: TreeEdit::DuplicateRaster { source: *source, destination },
                    active: destination,
                    pixel_change: Some(
                        LayerPixelChange::Duplicate { source: *source, destination },
                    ),
                },
            );
        },
        LayerCommand::Delete(node) => TreeEdit::Remove(*node),
        LayerCommand::Rename { node, name } => TreeEdit::Rename { node: *node, name: name.clone() },
        LayerCommand::SetReference { layer, reference } => TreeEdit::SetReference {
            layer: *layer,
            reference: *reference,
        },
        LayerCommand::SetLocked { layer, locked } => TreeEdit::SetLocked {
            layer: *layer,
            locked: *locked,
        },
        LayerCommand::SetAlphaLocked { layer, alpha_locked } => TreeEdit::SetAlphaLocked {
            layer: *layer,
            alpha_locked: *alpha_locked,
        },
        LayerCommand::SetClipToBelow { node, clip_to_below } => TreeEdit::SetClipToBelow {
            node: *node,
            clip_to_below: *clip_to_below,
        },
        LayerCommand::SetBlendMode { node, blend_mode } => TreeEdit::SetBlendMode {
            node: *node,
            blend_mode: *blend_mode,
        },
        LayerCommand::SetVisibility { node, visible } => TreeEdit::SetVisibility {
            node: *node,
            visible: *visible,
        },
        LayerCommand::SetOpacity { node, opacity_u16 } => TreeEdit::SetOpacity {
            node: *node,
            opacity_u16: *opacity_u16,
        },
        LayerCommand::Reorder { node, new_parent, index } => TreeEdit::Reorder {
            node: *node,
            new_parent: *new_parent,
            index: *index,
        },
        LayerCommand::SetActive(_) | LayerCommand::ToggleSolo(_) => {
            return Err(CommandRejectReason::UnsupportedCommand);
        },
    };
    Ok(LayerPlan { edit, active, pixel_change: None })
}

/// The reason that a refused tree edit is reported as.
pub fn tree_edit_rejection(edit: &TreeEdit, error: TreeError) -> (r: CommandRejectReason)
    ensures
        r == (match *edit {
            TreeEdit::InsertRaster { .. }
            | TreeEdit::InsertGroup { .. }
            | TreeEdit::Reorder { .. } => CommandRejectReason::InvalidLayerMove,
            TreeEdit::Remove(_) => if error is LockedNode {
                CommandRejectReason::LayerLocked
            } else {
                CommandRejectReason::UnknownLayer
            },
            _ => CommandRejectReason::UnknownLayer,
        }),
{
    match edit {
        TreeEdit::InsertRaster { .. } | TreeEdit::InsertGroup { .. } | TreeEdit::Reorder { .. } =>
            CommandRejectReason::InvalidLayerMove,
        TreeEdit::Remove(_) => match error {
            TreeError::LockedNode => CommandRejectReason::LayerLocked,
            TreeError::Other => CommandRejectReason::UnknownLayer,
        },
        _ => CommandRejectReason::UnknownLayer,
    }
}

/// What follows a removal: a replacement for the last raster, or a layer to
/// activate.
#[derive(Debug)]
pub struct AfterDelete {
    pub replacement: Option<TreeEdit>,
    pub active: LayerId,
}

/// A document never stays without a raster, and the active layer is always one
/// that the tree has.
pub fn after_delete(tree: &LayerTree, active: LayerId, next_id: u128) -> (r: Result<
    AfterDelete,
    CommandRejectReason,
>)
    ensures
        match r {
            Ok(follow_up) => if tree.rasters().len() == 0 {
                &&& next_id < u128::MAX
                &&& follow_up.active == LayerId(next_id)
                &&& follow_up.replacement matches Some(
                    TreeEdit::InsertRaster { parent, index, id, name },
                ) && parent == tree.root.id && index == tree.root.children@.len() && id == LayerId(
                    next_id,
                ) && name@ == "레이어 1"@
            } else {
                &&& follow_up.replacement is None
                &&& tree.has_raster(follow_up.active)
                &&& tree.has_raster(active) ==> follow_up.active == active
                &&& !tree.has_raster(active) ==> follow_up.active == tree.rasters().last().id
            },
            Err(reason) => reason is RevisionExhausted && tree.rasters().len() == 0 && next_id
                == u128::MAX,
        },
{
    let layers = raster_layer_ids(tree);
    if layers.len() == 0 {
        if next_id == u128::MAX {
            return Err(CommandRejectReason::RevisionExhausted);
        }
        let layer = LayerId(next_id);
        return Ok(
            AfterDelete {
                replacement: Some(
                    TreeEdit::InsertRaster {
                        parent: tree.root_id(),
                        index: tree.root.children.len(),
                        id: layer,
                        name: "레이어 1".to_owned(),
                    },
                ),
                active: layer,
            },
        );
    }
    Ok(AfterDelete { replacement: None, active: valid_active_layer(tree, active) })
}

/// A tree that stayed the same is committed only for the pixels it brings.
pub open spec fn needs_commit(
    edited: LayerTree,
    shown: LayerTree,
    pixel_change: Option<LayerPixelChange>,
) -> bool {
    !edited.agrees_with(shown) || pixel_change is Some
}

pub fn layer_commit_needed(
    edited: &LayerTree,
    shown: &LayerTree,
    pixel_change: Option<LayerPixelChange>,
) -> (r: bool)
    ensures
        r == needs_commit(*edited, *shown, pixel_change),
{
    !edited.same(shown) || pixel_change.is_some()
}

/// What follows a layer command that was applied to a copy of the tree.
#[derive(Clone, Copy, Debug, PartialEq, Eq)]
pub enum LayerCommitStep {
    /// The command is done.
    Return(Result<bool, CommandRejectReason>),
    /// The tree goes to the writer, and this job waits for its answer.
    Queue(ArtworkJob),
}

/// The job of a layer commit: the layer is activated when it is adopted.
pub open spec fn layer_job(active: LayerId) -> ArtworkJob {
    ArtworkJob {
        transform: None,
        temporary_picker: None,
        picker_token: None,
        active_layer: Some(active),
    }
}

pub open spec fn layer_commit(needed: bool, tree_fits: bool, active: LayerId) -> LayerCommitStep {
    if !needed {
        LayerCommitStep::Return(Ok(false))
    } else if !tree_fits {
        LayerCommitStep::Return(Err(CommandRejectReason::WorkspaceFailed))
    } else {
        LayerCommitStep::Queue(layer_job(active))
    }
}

/// Decides on the edited tree. A tree that needs no commit leaves everything
/// as it is; one that the scene cannot show never reaches the writer.
/// `tree_fits` is the scene's verdict, looked at only where a commit is needed.
pub fn layer_commit_step(needed: bool, tree_fits: bool, active: LayerId) -> (r: LayerCommitStep)
    ensures
        r == layer_commit(needed, tree_fits, active),
{
    if !needed {
        return LayerCommitStep::Return(Ok(false));
    }
    if !tree_fits {
        return LayerCommitStep::Return(Err(CommandRejectReason::WorkspaceFailed));
    }
    LayerCommitStep::Queue(
        ArtworkJob {
            transform: None,
            temporary_picker: None,
            picker_token: None,
            active_layer: Some(active),
        },
    )
}

/// A layer command reaches the writer exactly where its tree or its pixels
/// differ from what is shown and the scene can show the tree. Where the writer
/// takes it, the canvas is busy until the answer, which activates the planned
/// layer.
pub proof fn only_fitting_changes_are_committed<P, D, A>(
    state: CanvasState<P, D, A>,
    edited: LayerTree,
    shown: LayerTree,
    pixel_change: Option<LayerPixelChange>,
    tree_fits: bool,
    active: LayerId,
    queued: bool,
)
    ensures
        ({
            let step = layer_commit(needs_commit(edited, shown, pixel_change), tree_fits, active);
            let (next, answer) = state.artwork_enqueued(layer_job(active), queued);
            &&& step is Queue <==> (!edited.agrees_with(shown) || pixel_change is Some) && tree_fits
            &&& step matches LayerCommitStep::Queue(job) ==> job == layer_job(active)
            &&& queued ==> answer == Ok::<bool, CommandRejectReason>(false) && next.artwork_job
                == Some(layer_job(active)) && next.edit.busy
            &&& !queued ==> answer == Err::<bool, _>(CommandRejectReason::CommandQueueBusy)
                && next.artwork_job == state.artwork_job
        }),
{
}

/// The layer that a paste would add above the active one.
pub fn paste_layer(tree: &LayerTree, active: LayerId) -> (r: Result<TreeEdit, CommandRejectReason>)
    ensures
        match r {
            Ok(edit) => {
                &&& tree.position(LayerTreeNodeId::Raster(active)) is Some
                &&& edit matches TreeEdit::InsertRaster { parent, index, id, name } && parent
                    == place_above(*tree, active).0 && index == place_above(*tree, active).1
                    && id.0 == tree.highest_id() + 1 && name@ == "붙여넣기"@
            },
            Err(reason) => {
                ||| reason is UnknownLayer && tree.position(LayerTreeNodeId::Raster(active)) is None
                ||| reason is RevisionExhausted && tree.position(
                    LayerTreeNodeId::Raster(active),
                ) is Some && tree.highest_id() == u128::MAX
            },
        },
{
    match tree.parent_and_index(LayerTreeNodeId::Raster(active)) {
        None => Err(CommandRejectReason::UnknownLayer),
        Some((parent, index)) => match next_layer_node_id(tree) {
            Err(_) => Err(CommandRejectReason::RevisionExhausted),
            Ok(id) => Ok(
                TreeEdit::InsertRaster {
                    parent,
                    index: index + 1,
                    id: LayerId(id),
                    name: "붙여넣기".to_owned(),
                },
            ),
        },
    }
}

} // verus!
