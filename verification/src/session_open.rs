//! Opening a project: what is loaded, what is written first, and the canvas
//! that starts from it.
use vstd::prelude::*;

use crate::canvas::{ActiveCanvas, CanvasState, EditProjection};
use crate::document::LayerId;
use crate::drawing::{DrawingConfig, DrawingTool};
use crate::effect::InkEffect;
use crate::layer_tree::{valid_active_layer, LayerTree, LIVE_LAYER};
use crate::stroke_pipeline::{PipelineState, StrokePipeline};

verus! {

/// The layer tree that a project opens with.
#[derive(Clone, Copy, Debug, PartialEq, Eq, Structural)]
pub enum TreeChoice {
    Stored,
    /// The topology of projects without layer metadata.
    Legacy,
    Default,
}

/// What is known of a project while it opens.
#[derive(Clone, Copy, Debug, PartialEq, Eq, Structural)]
pub struct ProjectOpening {
    /// An image is imported where the project is empty.
    pub has_image: bool,
    /// A synthetic probe asked for its layered fixture.
    pub probing: bool,
    pub stored_tree: bool,
    pub reopened: bool,
}

/// What the host reports after an action.
#[derive(Clone, Copy, Debug, PartialEq, Eq, Structural)]
pub enum OpenEvent {
    Start,
    ImageDecoded(bool),
    Opened(bool),
    /// `Some(found)` where the lookup succeeded.
    TreeLoaded(Option<bool>),
    CanvasLoaded(bool),
    HistoryLoaded(Option<bool>),
    TreePersisted(bool),
    NextIdFound(bool),
    ImportPrepared(bool),
    ImportCanvasPersisted(bool),
    ImportTreePersisted(bool),
    ImportCommitted(bool),
    ImportAccepted(bool),
}

/// Which part of opening failed.
#[derive(Clone, Copy, Debug, PartialEq, Eq, Structural)]
pub enum OpenFailure {
    Image,
    Project,
    LayerTree,
    Canvas,
    History,
    InitialTree,
    Identifiers,
    ImportPrepare,
    ImportCanvas,
    ImportLayers,
    ImportCommit,
    ImportAccept,
}

impl OpenFailure {
    /// The words before the path, where the failure names one, or before the
    /// error. `recovery` tells a recovery from a durable project.
    pub fn lead(self, recovery: bool) -> (r: &'static str)
        ensures
            r@ == (match self {
                OpenFailure::Project => if recovery {
                    "project-open:mode=untitled-recovery:path="@
                } else {
                    "project-open:mode=durable:path="@
                },
                OpenFailure::Image => "png-import:path="@,
                OpenFailure::LayerTree => "layer-tree-reopen:path="@,
                OpenFailure::Canvas => "canvas-reopen:path="@,
                OpenFailure::History => "project-reopen:path="@,
                OpenFailure::InitialTree => "initial-layer-tree:"@,
                OpenFailure::Identifiers => "project identifier space is exhausted"@,
                OpenFailure::ImportPrepare => "png-import-prepare:"@,
                OpenFailure::ImportCanvas => "png-import-canvas:"@,
                OpenFailure::ImportLayers => "png-import-layers:"@,
                OpenFailure::ImportCommit => "png-import-commit:"@,
                OpenFailure::ImportAccept => "png-import-accept:"@,
            }),
    {
        match self {
            OpenFailure::Project => {
                if recovery {
                    "project-open:mode=untitled-recovery:path="
                } else {
                    "project-open:mode=durable:path="
                }
            },
            OpenFailure::Image => "png-import:path=",
            OpenFailure::LayerTree => "layer-tree-reopen:path=",
            OpenFailure::Canvas => "canvas-reopen:path=",
            OpenFailure::History => "project-reopen:path=",
            OpenFailure::InitialTree => "initial-layer-tree:",
            OpenFailure::Identifiers => "project identifier space is exhausted",
            OpenFailure::ImportPrepare => "png-import-prepare:",
            OpenFailure::ImportCanvas => "png-import-canvas:",
            OpenFailure::ImportLayers => "png-import-layers:",
            OpenFailure::ImportCommit => "png-import-commit:",
            OpenFailure::ImportAccept => "png-import-accept:",
        }
    }

    /// The path that the message names stands between the lead and `:error=`.
    pub fn names_path(self) -> (r: bool)
        ensures
            r == (self is Image || self is Project || self is LayerTree || self is Canvas
                || self is History),
    {
        match self {
            OpenFailure::Image | OpenFailure::Project | OpenFailure::LayerTree
            | OpenFailure::Canvas | OpenFailure::History => true,
            _ => false,
        }
    }

    /// The words after the error: what was on disk is still there.
    pub fn tail(self) -> (r: &'static str)
        ensures
            r@ == (match self {
                OpenFailure::Project => ":invalid-non-empty-preserved=true"@,
                OpenFailure::History => ":original-preserved=true"@,
                _ => ""@,
            }),
    {
        match self {
            OpenFailure::Project => ":invalid-non-empty-preserved=true",
            OpenFailure::History => ":original-preserved=true",
            _ => "",
        }
    }
}

#[derive(Clone, Copy, Debug, PartialEq, Eq, Structural)]
pub enum OpenAction {
    DecodeImage,
    OpenProject,
    LoadTree,
    LoadCanvas,
    LoadHistory,
    PersistTree(TreeChoice),
    FindNextId,
    PrepareImport,
    PersistImportCanvas,
    PersistImportTree,
    CommitImport,
    AcceptImport,
    /// The session continues the stored history.
    FinishReopened(TreeChoice),
    /// The session starts here, with its next identifier.
    FinishNew { tree: TreeChoice, imported: bool, next_id: u128 },
    Fail(OpenFailure),
}

impl ProjectOpening {
    /// Older projects keep the topology that their pixels were drawn for.
    pub open spec fn tree_choice(self) -> TreeChoice {
        if self.stored_tree {
            TreeChoice::Stored
        } else if self.reopened || self.probing {
            TreeChoice::Legacy
        } else {
            TreeChoice::Default
        }
    }

    /// A project without tree and history gets its tree before anything else,
    /// so that undoing to empty and reopening agree.
    pub open spec fn needs_initial_tree(self) -> bool {
        !self.stored_tree && !self.reopened
    }

    pub open spec fn after_tree(self) -> OpenAction {
        if self.reopened {
            OpenAction::FindNextId
        } else if self.has_image {
            OpenAction::PrepareImport
        } else {
            OpenAction::FinishNew { tree: self.tree_choice(), imported: false, next_id: 1 }
        }
    }

    pub open spec fn stepped(self, event: OpenEvent) -> (ProjectOpening, OpenAction) {
        match event {
            OpenEvent::Start => (
                self,
                if self.has_image {
                    OpenAction::DecodeImage
                } else {
                    OpenAction::OpenProject
                },
            ),
            OpenEvent::ImageDecoded(ok) => (
                self,
                if ok {
                    OpenAction::OpenProject
                } else {
                    OpenAction::Fail(OpenFailure::Image)
                },
            ),
            OpenEvent::Opened(ok) => (
                self,
                if ok {
                    OpenAction::LoadTree
                } else {
                    OpenAction::Fail(OpenFailure::Project)
                },
            ),
            OpenEvent::TreeLoaded(None) => (self, OpenAction::Fail(OpenFailure::LayerTree)),
            OpenEvent::TreeLoaded(Some(found)) => (
                ProjectOpening { stored_tree: found, ..self },
                OpenAction::LoadCanvas,
            ),
            OpenEvent::CanvasLoaded(ok) => (
                self,
                if ok {
                    OpenAction::LoadHistory
                } else {
                    OpenAction::Fail(OpenFailure::Canvas)
                },
            ),
            OpenEvent::HistoryLoaded(None) => (self, OpenAction::Fail(OpenFailure::History)),
            OpenEvent::HistoryLoaded(Some(found)) => {
                let known = ProjectOpening { reopened: found, ..self };
                (
                    known,
                    if known.needs_initial_tree() {
                        OpenAction::PersistTree(known.tree_choice())
                    } else {
                        known.after_tree()
                    },
                )
            },
            OpenEvent::TreePersisted(ok) => (
                self,
                if ok {
                    self.after_tree()
                } else {
                    OpenAction::Fail(OpenFailure::InitialTree)
                },
            ),
            OpenEvent::NextIdFound(ok) => (
                self,
                if ok {
                    OpenAction::FinishReopened(self.tree_choice())
                } else {
                    OpenAction::Fail(OpenFailure::Identifiers)
                },
            ),
            OpenEvent::ImportPrepared(ok) => (
                self,
                if ok {
                    OpenAction::PersistImportCanvas
                } else {
                    OpenAction::Fail(OpenFailure::ImportPrepare)
                },
            ),
            OpenEvent::ImportCanvasPersisted(ok) => (
                self,
                if ok {
                    OpenAction::PersistImportTree
                } else {
                    OpenAction::Fail(OpenFailure::ImportCanvas)
                },
            ),
            OpenEvent::ImportTreePersisted(ok) => (
                self,
                if ok {
                    OpenAction::CommitImport
                } else {
                    OpenAction::Fail(OpenFailure::ImportLayers)
                },
            ),
            OpenEvent::ImportCommitted(ok) => (
                self,
                if ok {
                    OpenAction::AcceptImport
                } else {
                    OpenAction::Fail(OpenFailure::ImportCommit)
                },
            ),
            OpenEvent::ImportAccepted(ok) => (
                self,
                if ok {
                    OpenAction::FinishNew { tree: self.tree_choice(), imported: true, next_id: 2 }
                } else {
                    OpenAction::Fail(OpenFailure::ImportAccept)
                },
            ),
        }
    }

    fn choose_tree(&self) -> (r: TreeChoice)
        ensures
            r == self.tree_choice(),
    {
        if self.stored_tree {
            TreeChoice::Stored
        } else if self.reopened || self.probing {
            TreeChoice::Legacy
        } else {
            TreeChoice::Default
        }
    }

    fn continue_after_tree(&self) -> (r: OpenAction)
        ensures
            r == self.after_tree(),
    {
        if self.reopened {
            OpenAction::FindNextId
        } else if self.has_image {
            OpenAction::PrepareImport
        } else {
            OpenAction::FinishNew { tree: self.choose_tree(), imported: false, next_id: 1 }
        }
    }

    /// One step of opening a project. The host starts with
    /// [`OpenEvent::Start`] and performs each action.
    pub fn open_materialization_session(&mut self, event: OpenEvent) -> (r: OpenAction)
        ensures
            (*final(self), r) == old(self).stepped(event),
    {
        match event {
            OpenEvent::Start => {
                if self.has_image {
                    OpenAction::DecodeImage
                } else {
                    OpenAction::OpenProject
                }
            },
            OpenEvent::ImageDecoded(ok) => {
                if ok {
                    OpenAction::OpenProject
                } else {
                    OpenAction::Fail(OpenFailure::Image)
                }
            },
            OpenEvent::Opened(ok) => {
                if ok {
                    OpenAction::LoadTree
                } else {
                    OpenAction::Fail(OpenFailure::Project)
                }
            },
            OpenEvent::TreeLoaded(None) => OpenAction::Fail(OpenFailure::LayerTree),
            OpenEvent::TreeLoaded(Some(found)) => {
                self.stored_tree = found;
                OpenAction::LoadCanvas
            },
            OpenEvent::CanvasLoaded(ok) => {
                if ok {
                    OpenAction::LoadHistory
                } else {
                    OpenAction::Fail(OpenFailure::Canvas)
                }
            },
            OpenEvent::HistoryLoaded(None) => OpenAction::Fail(OpenFailure::History),
            OpenEvent::HistoryLoaded(Some(found)) => {
                self.reopened = found;
                if !self.stored_tree && !self.reopened {
                    OpenAction::PersistTree(self.choose_tree())
                } else {
                    self.continue_after_tree()
                }
            },
            OpenEvent::TreePersisted(ok) => {
                if ok {
                    self.continue_after_tree()
                } else {
                    OpenAction::Fail(OpenFailure::InitialTree)
                }
            },
            OpenEvent::NextIdFound(ok) => {
                if ok {
                    OpenAction::FinishReopened(self.choose_tree())
                } else {
                    OpenAction::Fail(OpenFailure::Identifiers)
                }
            },
            OpenEvent::ImportPrepared(ok) => {
                if ok {
                    OpenAction::PersistImportCanvas
                } else {
                    OpenAction::Fail(OpenFailure::ImportPrepare)
                }
            },
            OpenEvent::ImportCanvasPersisted(ok) => {
                if ok {
                    OpenAction::PersistImportTree
                } else {
                    OpenAction::Fail(OpenFailure::ImportCanvas)
                }
            },
            OpenEvent::ImportTreePersisted(ok) => {
                if ok {
                    OpenAction::CommitImport
                } else {
                    OpenAction::Fail(OpenFailure::ImportLayers)
                }
            },
            OpenEvent::ImportCommitted(ok) => {
                if ok {
                    OpenAction::AcceptImport
                } else {
                    OpenAction::Fail(OpenFailure::ImportCommit)
                }
            },
            OpenEvent::ImportAccepted(ok) => {
                if ok {
                    OpenAction::FinishNew { tree: self.choose_tree(), imported: true, next_id: 2 }
                } else {
                    OpenAction::Fail(OpenFailure::ImportAccept)
                }
            },
        }
    }
}

/// Actions that write to the project.
pub open spec fn writes(action: OpenAction) -> bool {
    action is PersistTree || action is PersistImportCanvas || action is PersistImportTree
        || action is CommitImport
}

/// Nothing is written before tree, page and history have been read, and a
/// project with history is never given a tree or an image.
pub proof fn opening_preserves_existing_projects(opening: ProjectOpening, event: OpenEvent)
    ensures
        event is Start || event is ImageDecoded || event is Opened || event is TreeLoaded
            || event is CanvasLoaded ==> !writes(opening.stepped(event).1),
        event == OpenEvent::HistoryLoaded(Some(true)) ==> opening.stepped(event).1 is FindNextId,
        opening.stepped(event).1 is PrepareImport ==> !opening.stepped(event).0.reopened,
        opening.stepped(event).1 matches OpenAction::PersistTree(choice) ==> !(choice is Stored)
            && !opening.stepped(event).0.reopened && !opening.stepped(event).0.stored_tree,
{
}

/// A cursor of the stored history.
#[derive(Clone, Copy, Debug, PartialEq, Eq, Structural)]
pub struct HistoryCursor {
    pub head: Option<u128>,
    pub snapshot: u128,
}

/// The highest identifier that a project has used.
pub open spec fn highest_used(current: u128, cursors: Seq<HistoryCursor>) -> int
    decreases cursors.len(),
{
    if cursors.len() == 0 {
        current as int
    } else {
        let rest = highest_used(current, cursors.drop_last());
        let snapshot = crate::layer_tree::larger(rest, cursors.last().snapshot as int);
        match cursors.last().head {
            Some(head) => crate::layer_tree::larger(snapshot, head as int),
            None => snapshot,
        }
    }
}

/// An identifier above every one in the stored history. `Err` where the last
/// one is used.
pub fn next_project_id(current: u128, cursors: &Vec<HistoryCursor>) -> (r: Result<u128, ()>)
    ensures
        match r {
            Ok(id) => id == highest_used(current, cursors@) + 1,
            Err(_) => highest_used(current, cursors@) == u128::MAX,
        },
{
    let mut maximum: u128 = current;
    let mut index: usize = 0;
    assert(cursors@.take(0) =~= Seq::empty());
    while index < cursors.len()
        invariant
            index <= cursors@.len(),
            maximum == highest_used(current, cursors@.take(index as int)),
        decreases cursors@.len() - index,
    {
        assert(cursors@.take(index + 1).drop_last() =~= cursors@.take(index as int));
        let cursor = cursors[index];
        if cursor.snapshot > maximum {
            maximum = cursor.snapshot;
        }
        if let Some(head) = cursor.head {
            if head > maximum {
                maximum = head;
            }
        }
        index = index + 1;
    }
    assert(cursors@.take(index as int) =~= cursors@);
    match maximum.checked_add(1) {
        Some(id) => Ok(id),
        None => Err(()),
    }
}

/// The next identifier is above the current snapshot and every cursor.
pub proof fn next_id_is_unused(current: u128, cursors: Seq<HistoryCursor>)
    ensures
        current <= highest_used(current, cursors),
        forall|i: int|
            0 <= i < cursors.len() ==> (#[trigger] cursors[i]).snapshot <= highest_used(
                current,
                cursors,
            ) && (cursors[i].head matches Some(head) ==> head <= highest_used(current, cursors)),
    decreases cursors.len(),
{
    if cursors.len() > 0 {
        next_id_is_unused(current, cursors.drop_last());
        assert forall|i: int| 0 <= i < cursors.len() implies (#[trigger] cursors[i]).snapshot
            <= highest_used(current, cursors) && (cursors[i].head matches Some(head) ==> head
            <= highest_used(current, cursors)) by {
            if i < cursors.len() - 1 {
                assert(cursors.drop_last()[i] == cursors[i]);
            }
        }
    }
}

pub open spec fn resting_edit() -> EditProjection {
    EditProjection {
        busy: false,
        can_cancel: false,
        has_selection: false,
        selected_pixels: 0,
        error: None,
        transform: None,
    }
}

/// The layer that a canvas starts on: the restored one where the tree still
/// has it, else the first layer of a new document where it has that, else the
/// topmost raster.
pub fn initial_active_layer(tree: &LayerTree, restored: Option<LayerId>) -> (r: LayerId)
    ensures
        restored matches Some(layer) && tree.has_raster(layer) ==> r == restored->0,
        !(restored matches Some(layer) && tree.has_raster(layer)) ==> r == (if tree.has_raster(
            LayerId(LIVE_LAYER),
        ) {
            LayerId(LIVE_LAYER)
        } else if tree.rasters().len() > 0 {
            tree.rasters().last().id
        } else {
            LayerId(LIVE_LAYER)
        }),
{
    if let Some(layer) = restored {
        let chosen = valid_active_layer(tree, layer);
        if chosen == layer {
            proof {
                if !tree.has_raster(layer) {
                    if tree.rasters().len() > 0 {
                        assert(tree.has_raster(chosen));
                    }
                }
            }
            return layer;
        }
    }
    valid_active_layer(tree, LayerId(LIVE_LAYER))
}

impl<P: Copy, D, A> ActiveCanvas<P, D, A> {
    /// A canvas on an opened project. A restored one ends the pause that its
    /// predecessor may have left; a new one still has to fit its view.
    pub fn new(
        stroke: StrokePipeline<P, D, A>,
        drawing: DrawingConfig,
        active_layer: LayerId,
        has_export_path: bool,
        restoring: bool,
    ) -> (r: Self)
        requires
            stroke@.wf(),
            drawing@.wf(),
        ensures
            r@.wf(),
            r@ == (CanvasState {
                stroke: PipelineState {
                    effects: (if restoring {
                        stroke@.effects.push(InkEffect::ResumeAfterEdit)
                    } else {
                        stroke@.effects
                    }).push(InkEffect::SetNavigationTool(drawing@.tool is Move)).push(
                        InkEffect::SetAdmissionLayer(active_layer),
                    ),
                    ..stroke@
                },
                drawing: drawing@,
                active_layer,
                artwork_job: None,
                edit: resting_edit(),
                pending_save: None,
                has_export_path,
                publication_base: None,
            }),
    {
        let mut stroke = stroke;
        if restoring {
            stroke.effects.push(InkEffect::ResumeAfterEdit);
        }
        stroke.effects.push(InkEffect::SetNavigationTool(drawing.tool == DrawingTool::Move));
        stroke.effects.push(InkEffect::SetAdmissionLayer(active_layer));
        ActiveCanvas {
            stroke,
            drawing,
            active_layer,
            artwork_job: None,
            edit: EditProjection {
                busy: false,
                can_cancel: false,
                has_selection: false,
                selected_pixels: 0,
                error: None,
                transform: None,
            },
            pending_save: None,
            has_export_path,
            publication_base: None,
        }
    }

    /// Whether the initial fit may be queued now.
    pub fn may_queue_initial_fit(pending: bool, saving_as: bool, closing: bool) -> (r: bool)
        ensures
            r == (pending && !saving_as && !closing),
    {
        pending && !saving_as && !closing
    }

    /// Takes the answer to the queued initial fit. One that found no room is
    /// kept and asked for again after the next frame. Returns whether it is
    /// still pending.
    pub fn initial_fit_queued(&mut self, accepted: bool, workspace_failed: bool) -> (pending: bool)
        ensures
            pending == !accepted,
            final(self)@ == (if !accepted && !workspace_failed {
                old(self)@.with_effect(InkEffect::RequestRedraw)
            } else {
                old(self)@
            }),
    {
        if !accepted && !workspace_failed {
            self.stroke.effects.push(InkEffect::RequestRedraw);
        }
        !accepted
    }
}

} // verus!
