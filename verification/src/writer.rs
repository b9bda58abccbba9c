//! The project writer: one request at a time, durable before it is shown, and
//! stopped for good where the project may no longer match the canvas.
use vstd::prelude::*;
use vstd::string::*;

use crate::canvas::ExportStatus;
use crate::decimal::to_decimal;
use crate::document::{CanvasSpec, LayerId};
use crate::edit::EditCommand;
use crate::editor_command::HistoryCommand;
use crate::export::{finished_export_status, ExportGenerationGate, ExportPngOutcome};
use crate::layer_tree::{legacy_layer_tree, raster_layer_ids, LayerTree};
use crate::performance::HistoryWorkerStep;
use crate::tile_map::TileKey;
use crate::transform::TransformCommand;

verus! {

/// A failure that the writer publishes. A number is the host's own message.
#[derive(Clone, Copy, Debug, PartialEq, Eq, Structural)]
pub enum WriterFailure {
    Edit(u64),
    HistoryNotRestored(u64),
    LayerNotSaved(u64),
    LayerIdentifiersExhausted,
    LockedTarget,
    StrokeNotSaved(u64),
    StrokeNotMaterialized(u64),
    CompletionQueueFull { ordinal: u64 },
    CompletionReceiverLost { ordinal: u64 },
}

impl WriterFailure {
    /// The text that precedes the host's message, or the whole text.
    pub open spec fn lead(self) -> Seq<char> {
        match self {
            WriterFailure::Edit(_) => Seq::empty(),
            WriterFailure::HistoryNotRestored(_) => "History could not be restored: "@,
            WriterFailure::LayerNotSaved(_) => "Layer change could not be saved: "@,
            WriterFailure::LayerIdentifiersExhausted =>
                "Layer change could not be saved: project identifier space exhausted"@,
            WriterFailure::LockedTarget =>
                "Closed stroke targeted a locked or missing layer; reopen before drawing"@,
            WriterFailure::StrokeNotSaved(_) => "Closed stroke could not be saved: "@,
            WriterFailure::StrokeNotMaterialized(_) => "Closed stroke could not be materialized: "@,
            WriterFailure::CompletionQueueFull { ordinal } => "Drawing stopped after stroke "@
                + crate::decimal::decimal(ordinal as nat)
                + " was saved because its exact tile update could not retire the GPU preview"@,
            WriterFailure::CompletionReceiverLost { ordinal } => "Drawing stopped after stroke "@
                + crate::decimal::decimal(ordinal as nat)
                + " was saved because its exact tile update lost its display receiver"@,
        }
    }

    pub fn text(self) -> (r: String)
        ensures
            r@ == self.lead(),
    {
        match self {
            WriterFailure::Edit(_) => String::new(),
            WriterFailure::HistoryNotRestored(_) => "History could not be restored: ".to_owned(),
            WriterFailure::LayerNotSaved(_) => "Layer change could not be saved: ".to_owned(),
            WriterFailure::LayerIdentifiersExhausted =>
                "Layer change could not be saved: project identifier space exhausted".to_owned(),
            WriterFailure::LockedTarget =>
                "Closed stroke targeted a locked or missing layer; reopen before drawing".to_owned(),
            WriterFailure::StrokeNotSaved(_) => "Closed stroke could not be saved: ".to_owned(),
            WriterFailure::StrokeNotMaterialized(_) =>
                "Closed stroke could not be materialized: ".to_owned(),
            WriterFailure::CompletionQueueFull { ordinal } => {
                let mut text = "Drawing stopped after stroke ".to_owned();
                text.append(to_decimal(ordinal as u128).as_str());
                text.append(
                    " was saved because its exact tile update could not retire the GPU preview",
                );
                text
            },
            WriterFailure::CompletionReceiverLost { ordinal } => {
                let mut text = "Drawing stopped after stroke ".to_owned();
                text.append(to_decimal(ordinal as u128).as_str());
                text.append(" was saved because its exact tile update lost its display receiver");
                text
            },
        }
    }
}

/// What the writer asks of its host, in order.
#[derive(Clone, Copy, Debug, PartialEq, Eq, Structural)]
pub enum WriterEffect {
    RequestRedraw,
    PublishNavigator,
    /// Thumbnails of the layers that changed, or of all of them.
    PublishThumbnails { generation: u64, changed_only: bool },
    PublishFailure(WriterFailure),
    /// Answer the request.
    Reply,
    /// One closed stroke fewer is pending.
    ReleasePending,
    PublishExportStatus(ExportStatus),
    PublishCloseExporting,
}

#[derive(Clone, Copy, Debug, PartialEq, Eq, Structural)]
pub enum WorkerExit {
    Drained,
    FailStop,
    Panicked,
}

/// One request, as far as the writer decides on it.
#[derive(Clone, Copy, Debug, PartialEq, Eq, Structural)]
pub enum WriterWork {
    PickerPreview,
    Stroke { layer: LayerId, alpha_locked: bool },
    Edit(EditCommand),
    CommitLayerTree,
    ExportPng { generation: u64 },
    MoveHistory(HistoryCommand),
}

/// Requests that a probe may hold back.
#[derive(Clone, Copy, Debug, PartialEq, Eq, Structural)]
pub enum ProbeKind {
    Page,
    History,
    Layer,
}

/// What the host does with a request.
#[derive(Clone, Copy, Debug, PartialEq, Eq, Structural)]
pub enum WriterTask {
    SamplePicker,
    /// Replay the stroke as this snapshot.
    ReplayStroke { snapshot: u128 },
    /// The stroke was refused; the writer stops.
    Stopped,
    RunTransform(TransformCommand),
    RunEdit(EditCommand),
    CommitLayerTree,
    Export,
    SkipExport,
    ShowRedoBranches { after: Option<u128> },
    MoveHistory(HistoryCommand),
}

pub struct Writer {
    pub next_id: u128,
    pub thumbnail_generation: u64,
    pub processed: u64,
    pub preview_tree: LayerTree,
    pub preview_canvas: CanvasSpec,
    pub has_selection: bool,
    pub exit: Option<WorkerExit>,
    pub effects: Vec<WriterEffect>,
}

/// The mathematical content of a [`Writer`].
pub struct WriterState {
    pub next_id: u128,
    pub thumbnail_generation: u64,
    pub processed: u64,
    pub preview_tree: LayerTree,
    pub preview_canvas: CanvasSpec,
    pub has_selection: bool,
    pub exit: Option<WorkerExit>,
    pub effects: Seq<WriterEffect>,
}

impl View for Writer {
    type V = WriterState;

    open spec fn view(&self) -> WriterState {
        WriterState {
            next_id: self.next_id,
            thumbnail_generation: self.thumbnail_generation,
            processed: self.processed,
            preview_tree: self.preview_tree,
            preview_canvas: self.preview_canvas,
            has_selection: self.has_selection,
            exit: self.exit,
            effects: self.effects@,
        }
    }
}

pub open spec fn probe_of(work: WriterWork) -> Option<ProbeKind> {
    match work {
        WriterWork::Edit(command) => if command is ResizePage || command is CropPageToSelection {
            Some(ProbeKind::Page)
        } else {
            None
        },
        WriterWork::MoveHistory(_) => Some(ProbeKind::History),
        WriterWork::CommitLayerTree => Some(ProbeKind::Layer),
        _ => None,
    }
}

pub fn probe_kind(work: WriterWork) -> (r: Option<ProbeKind>)
    ensures
        r == probe_of(work),
{
    match work {
        WriterWork::Edit(EditCommand::ResizePage { .. } | EditCommand::CropPageToSelection) => Some(
            ProbeKind::Page,
        ),
        WriterWork::MoveHistory(_) => Some(ProbeKind::History),
        WriterWork::CommitLayerTree => Some(ProbeKind::Layer),
        _ => None,
    }
}

impl WriterState {
    pub open spec fn with_effect(self, effect: WriterEffect) -> WriterState {
        WriterState { effects: self.effects.push(effect), ..self }
    }

    pub open spec fn replied(self) -> WriterState {
        self.with_effect(WriterEffect::Reply).with_effect(WriterEffect::RequestRedraw)
    }

    pub open spec fn stopped(self) -> WriterState {
        WriterState { exit: Some(WorkerExit::FailStop), ..self }
    }

    /// Navigator and thumbnails show the committed artwork.
    pub open spec fn previews_published(self, changed_only: bool) -> WriterState {
        let generation = crate::stroke_pipeline::saturating_next(self.thumbnail_generation);
        WriterState {
            thumbnail_generation: generation,
            ..self.with_effect(WriterEffect::PublishNavigator).with_effect(
                WriterEffect::PublishThumbnails { generation, changed_only },
            )
        }
    }

    /// A failed request is published, answered, and stops the writer.
    pub open spec fn failed(self, failure: WriterFailure) -> WriterState {
        self.with_effect(WriterEffect::PublishFailure(failure)).replied().stopped()
    }

    /// The layer of a closed stroke still takes it.
    pub open spec fn accepts_stroke(self, layer: LayerId, alpha_locked: bool) -> bool {
        crate::layer_tree::raster_named(self.preview_tree.rasters(), layer) matches Some(found)
            && !found.locked && found.alpha_locked == alpha_locked
    }

    /// What a request leads to. A stopped writer takes none.
    pub open spec fn received(
        self,
        work: WriterWork,
        gate: ExportGenerationGate,
        closing: bool,
    ) -> (WriterState, WriterTask) {
        if self.exit is Some {
            (self, WriterTask::Stopped)
        } else {
            self.dispatched(work, gate, closing)
        }
    }

    pub open spec fn dispatched(
        self,
        work: WriterWork,
        gate: ExportGenerationGate,
        closing: bool,
    ) -> (WriterState, WriterTask) {
        let woken = self.with_effect(WriterEffect::RequestRedraw);
        match work {
            WriterWork::PickerPreview => (woken, WriterTask::SamplePicker),
            WriterWork::Stroke { layer, alpha_locked } => if self.accepts_stroke(
                layer,
                alpha_locked,
            ) {
                (woken, WriterTask::ReplayStroke { snapshot: self.next_id })
            } else {
                (
                    woken.with_effect(
                        WriterEffect::PublishFailure(WriterFailure::LockedTarget),
                    ).with_effect(WriterEffect::ReleasePending).stopped(),
                    WriterTask::Stopped,
                )
            },
            WriterWork::Edit(command) => (
                woken,
                match command {
                    EditCommand::FreeTransform(transform) => WriterTask::RunTransform(transform),
                    _ => WriterTask::RunEdit(command),
                },
            ),
            WriterWork::CommitLayerTree => (woken, WriterTask::CommitLayerTree),
            WriterWork::ExportPng { generation } => if gate.latest == generation {
                let running = woken.with_effect(
                    WriterEffect::PublishExportStatus(ExportStatus::Running { generation }),
                );
                (
                    if closing {
                        running.with_effect(WriterEffect::PublishCloseExporting)
                    } else {
                        running
                    },
                    WriterTask::Export,
                )
            } else {
                (woken, WriterTask::SkipExport)
            },
            WriterWork::MoveHistory(command) => (
                woken,
                match command {
                    HistoryCommand::ShowRedoBranches { after } => WriterTask::ShowRedoBranches {
                        after,
                    },
                    _ => WriterTask::MoveHistory(command),
                },
            ),
        }
    }
}

/// What an artwork request led to. The new tree and page come with it.
pub enum ArtworkResult {
    Changed { tree: Option<LayerTree>, canvas: Option<CanvasSpec> },
    Unchanged,
    Rejected,
    Fatal(u64),
}

/// What became of a closed stroke.
#[derive(Clone, Copy, Debug, PartialEq, Eq, Structural)]
pub enum StrokeResult {
    /// It is durable, and this became of its way to the display.
    Committed { ordinal: u64, delivery: Delivery },
    CommitFailed(u64),
    ReplayFailed(u64),
}

/// The way of a saved stroke to the display.
#[derive(Clone, Copy, Debug, PartialEq, Eq, Structural)]
pub enum Delivery {
    Sent,
    /// The display is going away and needs no update.
    Retired,
    Full,
    Disconnected,
}

/// What the completion lane said.
#[derive(Clone, Copy, Debug, PartialEq, Eq, Structural)]
pub enum LaneAnswer {
    Accepted,
    Full,
    Disconnected,
}

pub open spec fn delivery_of(
    retired_before: bool,
    answer: LaneAnswer,
    retired_after: bool,
) -> Delivery {
    if retired_before {
        Delivery::Retired
    } else if answer is Accepted {
        Delivery::Sent
    } else if retired_after {
        Delivery::Retired
    } else if answer is Full {
        Delivery::Full
    } else {
        Delivery::Disconnected
    }
}

/// Delivery never waits. A display that was retired before or during the
/// attempt cannot turn a saved stroke into a failure; a live one that cannot
/// be reached stops drawing.
pub fn publish_closed_completion(
    retired_before: bool,
    answer: LaneAnswer,
    retired_after: bool,
) -> (r: Delivery)
    ensures
        r == delivery_of(retired_before, answer, retired_after),
{
    if retired_before {
        return Delivery::Retired;
    }
    match answer {
        LaneAnswer::Accepted => Delivery::Sent,
        LaneAnswer::Full => {
            if retired_after {
                Delivery::Retired
            } else {
                Delivery::Full
            }
        },
        LaneAnswer::Disconnected => {
            if retired_after {
                Delivery::Retired
            } else {
                Delivery::Disconnected
            }
        },
    }
}

impl WriterState {
    pub open spec fn artwork_finished(self, result: ArtworkResult) -> WriterState {
        match result {
            ArtworkResult::Changed { tree, canvas } => WriterState {
                preview_tree: match tree {
                    Some(tree) => tree,
                    None => self.preview_tree,
                },
                preview_canvas: match canvas {
                    Some(canvas) => canvas,
                    None => self.preview_canvas,
                },
                ..self
            }.previews_published(false).replied(),
            ArtworkResult::Unchanged | ArtworkResult::Rejected => self.replied(),
            ArtworkResult::Fatal(message) => self.failed(WriterFailure::Edit(message)),
        }
    }

    /// History and layer commits drop the selection that no longer fits.
    pub open spec fn history_finished(self, result: ArtworkResult) -> WriterState {
        match result {
            ArtworkResult::Changed { tree, canvas } => WriterState {
                has_selection: false,
                ..self
            }.artwork_finished(result),
            ArtworkResult::Unchanged | ArtworkResult::Rejected => self.replied(),
            ArtworkResult::Fatal(message) => self.failed(
                WriterFailure::HistoryNotRestored(message),
            ),
        }
    }

    /// The layer had pixels before and has no place in the new tree.
    pub open spec fn removes(self, tree: LayerTree, layer: LayerId) -> bool {
        crate::layer_tree::raster_ids(self.preview_tree.rasters()).contains(layer)
            && !crate::layer_tree::raster_ids(tree.rasters()).contains(layer)
    }

    pub open spec fn layer_commit_finished(self, result: Result<LayerTree, u64>) -> WriterState {
        match result {
            Ok(tree) => WriterState {
                next_id: (self.next_id + 1) as u128,
                has_selection: false,
                ..self
            }.artwork_finished(ArtworkResult::Changed { tree: Some(tree), canvas: None }),
            Err(message) => self.failed(WriterFailure::LayerNotSaved(message)),
        }
    }

    pub open spec fn delivery_failure(delivery: Delivery, ordinal: u64) -> WriterFailure {
        if delivery is Full {
            WriterFailure::CompletionQueueFull { ordinal }
        } else {
            WriterFailure::CompletionReceiverLost { ordinal }
        }
    }

    pub open spec fn stroke_finished(self, result: StrokeResult) -> WriterState {
        match result {
            StrokeResult::Committed { ordinal, delivery } => {
                let shown = WriterState {
                    processed: crate::stroke_pipeline::saturating_next(self.processed),
                    ..self.previews_published(true)
                };
                match delivery {
                    Delivery::Sent => shown.with_effect(
                        WriterEffect::RequestRedraw,
                    ).identifier_used(),
                    Delivery::Retired => shown.identifier_used(),
                    _ => shown.with_effect(
                        WriterEffect::PublishFailure(
                            WriterState::delivery_failure(delivery, ordinal),
                        ),
                    ).with_effect(WriterEffect::ReleasePending).stopped(),
                }
            },
            StrokeResult::CommitFailed(message) => self.with_effect(
                WriterEffect::PublishFailure(WriterFailure::StrokeNotSaved(message)),
            ).with_effect(WriterEffect::ReleasePending).stopped(),
            StrokeResult::ReplayFailed(message) => self.with_effect(
                WriterEffect::PublishFailure(WriterFailure::StrokeNotMaterialized(message)),
            ).with_effect(WriterEffect::ReleasePending).stopped(),
        }
    }

    /// The identifier of a saved stroke is spent; without another one the
    /// writer stops.
    pub open spec fn identifier_used(self) -> WriterState {
        let released = self.with_effect(WriterEffect::ReleasePending);
        if self.next_id < u128::MAX {
            WriterState { next_id: (self.next_id + 1) as u128, ..released }
        } else {
            released.stopped()
        }
    }
}

/// A layer commit about to be written.
pub struct LayerCommitPlan {
    pub snapshot: u128,
    pub emptied: Vec<TileKey>,
}

fn lists(layers: &Vec<LayerId>, layer: LayerId) -> (r: bool)
    ensures
        r == layers@.contains(layer),
{
    let mut index: usize = 0;
    while index < layers.len()
        invariant
            index <= layers@.len(),
            forall|i: int| 0 <= i < index ==> layers@[i] != layer,
        decreases layers@.len() - index,
    {
        if layers[index] == layer {
            assert(layers@[index as int] == layer);
            return true;
        }
        index = index + 1;
    }
    false
}

proof fn lemma_reversed_has(layers: Seq<LayerId>, layer: LayerId)
    ensures
        layers.reverse().contains(layer) == layers.contains(layer),
{
    if layers.contains(layer) {
        let i = choose|i: int| 0 <= i < layers.len() && layers[i] == layer;
        assert(layers.reverse()[layers.len() - 1 - i] == layer);
    }
    if layers.reverse().contains(layer) {
        let i = choose|i: int| 0 <= i < layers.len() && layers.reverse()[i] == layer;
        assert(layers[layers.len() - 1 - i] == layer);
    }
}

impl Writer {
    pub fn new(next_id: u128, preview_tree: LayerTree, preview_canvas: CanvasSpec) -> (r: Self)
        ensures
            r@ == (WriterState {
                next_id,
                thumbnail_generation: 1,
                processed: 0,
                preview_tree,
                preview_canvas,
                has_selection: false,
                exit: None,
                effects: Seq::empty(),
            }),
    {
        Writer {
            next_id,
            thumbnail_generation: 1,
            processed: 0,
            preview_tree,
            preview_canvas,
            has_selection: false,
            exit: None,
            effects: Vec::new(),
        }
    }

    /// Takes one request. A dequeued request freed a slot, so the canvas is
    /// woken first. A stopped writer takes no more.
    pub fn materialization_loop(
        &mut self,
        work: WriterWork,
        gate: &ExportGenerationGate,
        closing: bool,
    ) -> (r: WriterTask)
        ensures
            (final(self)@, r) == old(self)@.received(work, *gate, closing),
            old(self)@.exit is Some ==> final(self)@ == old(self)@ && r is Stopped,
    {
        if self.exit.is_some() {
            return WriterTask::Stopped;
        }
        self.effects.push(WriterEffect::RequestRedraw);
        match work {
            WriterWork::PickerPreview => WriterTask::SamplePicker,
            WriterWork::Stroke { layer, alpha_locked } => {
                let accepted = match self.preview_tree.raster(layer) {
                    Some(found) => !found.locked && found.alpha_locked == alpha_locked,
                    None => false,
                };
                if accepted {
                    return WriterTask::ReplayStroke { snapshot: self.next_id };
                }
                // A stale producer never commits ink to a locked or removed
                // layer, even where it bypassed live admission.
                self.effects.push(WriterEffect::PublishFailure(WriterFailure::LockedTarget));
                self.effects.push(WriterEffect::ReleasePending);
                self.exit = Some(WorkerExit::FailStop);
                WriterTask::Stopped
            },
            WriterWork::Edit(command) => match command {
                EditCommand::FreeTransform(transform) => WriterTask::RunTransform(transform),
                _ => WriterTask::RunEdit(command),
            },
            WriterWork::CommitLayerTree => WriterTask::CommitLayerTree,
            WriterWork::ExportPng { generation } => {
                if !gate.is_current(generation) {
                    return WriterTask::SkipExport;
                }
                self.effects.push(
                    WriterEffect::PublishExportStatus(ExportStatus::Running { generation }),
                );
                if closing {
                    self.effects.push(WriterEffect::PublishCloseExporting);
                }
                WriterTask::Export
            },
            WriterWork::MoveHistory(command) => match command {
                HistoryCommand::ShowRedoBranches { after } => WriterTask::ShowRedoBranches {
                    after,
                },
                _ => WriterTask::MoveHistory(command),
            },
        }
    }

    /// Answers a request that changed nothing: a sampled pick, a page of redo
    /// branches, or one that a probe held back.
    pub fn answered(&mut self)
        ensures
            final(self)@ == old(self)@.replied(),
    {
        self.effects.push(WriterEffect::Reply);
        self.effects.push(WriterEffect::RequestRedraw);
    }

    fn publish_previews(&mut self, changed_only: bool)
        ensures
            final(self)@ == old(self)@.previews_published(changed_only),
    {
        self.effects.push(WriterEffect::PublishNavigator);
        self.thumbnail_generation = self.thumbnail_generation.saturating_add(1);
        self.effects.push(
            WriterEffect::PublishThumbnails {
                generation: self.thumbnail_generation,
                changed_only,
            },
        );
    }

    fn fail(&mut self, failure: WriterFailure)
        ensures
            final(self)@ == old(self)@.failed(failure),
    {
        self.effects.push(WriterEffect::PublishFailure(failure));
        self.answered();
        self.exit = Some(WorkerExit::FailStop);
    }

    /// Takes the result of an edit or a transform, with the identifier and the
    /// selection that it left. Only committed artwork reaches the previews; a
    /// fatal failure stops the writer.
    pub fn edit_finished(&mut self, result: ArtworkResult, next_id: u128, has_selection: bool)
        ensures
            final(self)@ == (WriterState { next_id, has_selection, ..old(self)@ }).artwork_finished(
                result,
            ),
    {
        self.next_id = next_id;
        self.has_selection = has_selection;
        self.publish_artwork(result);
    }

    fn publish_artwork(&mut self, result: ArtworkResult)
        ensures
            final(self)@ == old(self)@.artwork_finished(result),
    {
        match result {
            ArtworkResult::Changed { tree, canvas } => {
                if let Some(tree) = tree {
                    self.preview_tree = tree;
                }
                if let Some(canvas) = canvas {
                    self.preview_canvas = canvas;
                }
                self.publish_previews(false);
                self.answered();
            },
            ArtworkResult::Unchanged | ArtworkResult::Rejected => self.answered(),
            ArtworkResult::Fatal(message) => self.fail(WriterFailure::Edit(message)),
        }
    }

    /// Takes the result of a move through the history.
    pub fn history_finished(&mut self, result: ArtworkResult)
        ensures
            final(self)@ == old(self)@.history_finished(result),
    {
        match result {
            ArtworkResult::Changed { tree, canvas } => {
                self.has_selection = false;
                self.publish_artwork(ArtworkResult::Changed { tree, canvas });
            },
            ArtworkResult::Unchanged | ArtworkResult::Rejected => self.answered(),
            ArtworkResult::Fatal(message) => self.fail(WriterFailure::HistoryNotRestored(message)),
        }
    }

    /// Takes the result of a closed stroke.
    pub fn stroke_finished(&mut self, result: StrokeResult)
        ensures
            final(self)@ == old(self)@.stroke_finished(result),
    {
        match result {
            StrokeResult::Committed { ordinal, delivery } => {
                self.publish_previews(true);
                self.processed = self.processed.saturating_add(1);
                match delivery {
                    Delivery::Sent => {
                        self.effects.push(WriterEffect::RequestRedraw);
                        self.use_identifier();
                    },
                    Delivery::Retired => {
                        self.use_identifier();
                    },
                    Delivery::Full => {
                        self.effects.push(
                            WriterEffect::PublishFailure(
                                WriterFailure::CompletionQueueFull { ordinal },
                            ),
                        );
                        self.effects.push(WriterEffect::ReleasePending);
                        self.exit = Some(WorkerExit::FailStop);
                    },
                    Delivery::Disconnected => {
                        self.effects.push(
                            WriterEffect::PublishFailure(
                                WriterFailure::CompletionReceiverLost { ordinal },
                            ),
                        );
                        self.effects.push(WriterEffect::ReleasePending);
                        self.exit = Some(WorkerExit::FailStop);
                    },
                }
            },
            StrokeResult::CommitFailed(message) => {
                self.effects.push(
                    WriterEffect::PublishFailure(WriterFailure::StrokeNotSaved(message)),
                );
                self.effects.push(WriterEffect::ReleasePending);
                self.exit = Some(WorkerExit::FailStop);
            },
            StrokeResult::ReplayFailed(message) => {
                self.effects.push(
                    WriterEffect::PublishFailure(WriterFailure::StrokeNotMaterialized(message)),
                );
                self.effects.push(WriterEffect::ReleasePending);
                self.exit = Some(WorkerExit::FailStop);
            },
        }
    }

    fn use_identifier(&mut self)
        ensures
            final(self)@ == old(self)@.identifier_used(),
    {
        self.effects.push(WriterEffect::ReleasePending);
        match self.next_id.checked_add(1) {
            Some(next) => {
                self.next_id = next;
            },
            None => {
                self.exit = Some(WorkerExit::FailStop);
            },
        }
    }

    /// Plans a layer commit: the snapshot it becomes and the tiles that the
    /// removed layers leave empty. Without another identifier the writer fails.
    pub fn plan_layer_commit(&mut self, tree: &LayerTree, keys: &Vec<TileKey>) -> (r: Option<
        LayerCommitPlan,
    >)
        ensures
            old(self)@.next_id == u128::MAX ==> r is None && final(self)@ == old(self)@.failed(
                WriterFailure::LayerIdentifiersExhausted,
            ),
            old(self)@.next_id < u128::MAX ==> final(self)@ == old(self)@ && (r matches Some(plan)
                && plan.snapshot == old(self)@.next_id && plan.emptied@ == keys@.filter(
                |key: TileKey| old(self)@.removes(*tree, key.layer),
            )),
    {
        if self.next_id == u128::MAX {
            self.fail(WriterFailure::LayerIdentifiersExhausted);
            return None;
        }
        let kept = raster_layer_ids(tree);
        let before = raster_layer_ids(&self.preview_tree);
        let mut emptied: Vec<TileKey> = Vec::new();
        let mut index: usize = 0;
        let ghost removes = |key: TileKey| old(self)@.removes(*tree, key.layer);
        proof {
            assert(keys@.take(0).filter(removes) =~= Seq::empty()) by {
                reveal(Seq::filter);
            }
        }
        while index < keys.len()
            invariant
                index <= keys@.len(),
                self@ == old(self)@,
                removes == (|key: TileKey| old(self)@.removes(*tree, key.layer)),
                kept@ == crate::layer_tree::raster_ids(tree.rasters()).reverse(),
                before@ == crate::layer_tree::raster_ids(old(self)@.preview_tree.rasters()).reverse(),
                emptied@ == keys@.take(index as int).filter(removes),
            decreases keys@.len() - index,
        {
            let key = keys[index];
            let removed = lists(&before, key.layer) && !lists(&kept, key.layer);
            proof {
                lemma_reversed_has(
                    crate::layer_tree::raster_ids(tree.rasters()),
                    key.layer,
                );
                lemma_reversed_has(
                    crate::layer_tree::raster_ids(old(self)@.preview_tree.rasters()),
                    key.layer,
                );
                assert(removed == removes(key));
                assert(keys@.take(index + 1).drop_last() =~= keys@.take(index as int));
                reveal(Seq::filter);
            }
            if removed {
                emptied.push(key);
            }
            index = index + 1;
        }
        assert(keys@.take(index as int) =~= keys@);
        Some(LayerCommitPlan { snapshot: self.next_id, emptied })
    }

    /// Takes the result of a planned layer commit.
    pub fn layer_commit_finished(&mut self, result: Result<LayerTree, u64>)
        requires
            old(self)@.next_id < u128::MAX,
        ensures
            final(self)@ == old(self)@.layer_commit_finished(result),
    {
        match result {
            Ok(tree) => {
                self.next_id = self.next_id + 1;
                self.has_selection = false;
                self.publish_artwork(ArtworkResult::Changed { tree: Some(tree), canvas: None });
            },
            Err(message) => self.fail(WriterFailure::LayerNotSaved(message)),
        }
    }

    /// Takes the outcome of an export. The project's durability does not
    /// depend on it.
    pub fn export_finished(&mut self, generation: u64, outcome: ExportPngOutcome)
        ensures
            final(self)@ == (match outcome {
                ExportPngOutcome::Replaced => old(self)@.with_effect(
                    WriterEffect::PublishExportStatus(ExportStatus::Current { generation }),
                ),
                ExportPngOutcome::Superseded { latest } => old(self)@,
                ExportPngOutcome::Failed(_) => old(self)@.with_effect(
                    WriterEffect::PublishExportStatus(ExportStatus::Failed { generation }),
                ),
            }),
    {
        if let Some(status) = finished_export_status(generation, outcome) {
            self.effects.push(WriterEffect::PublishExportStatus(status));
        }
    }
}

/// The stages of a move through the history, in order.
#[derive(Clone, Copy, Debug, PartialEq, Eq, Structural)]
pub enum HistoryStage {
    Prepare,
    LoadTiles,
    LoadTree,
    LoadCanvas,
    Persist,
    Accept,
}

#[derive(Clone, Copy, Debug, PartialEq, Eq, Structural)]
pub enum HistoryStep {
    Do(HistoryStage),
    Moved,
    /// Nothing was touched yet.
    Rejected,
    Fatal,
}

impl HistoryStage {
    pub open spec fn number(self) -> int {
        match self {
            HistoryStage::Prepare => 0,
            HistoryStage::LoadTiles => 1,
            HistoryStage::LoadTree => 2,
            HistoryStage::LoadCanvas => 3,
            HistoryStage::Persist => 4,
            HistoryStage::Accept => 5,
        }
    }

    pub open spec fn error_lead_text(self) -> Seq<char> {
        match self {
            HistoryStage::Prepare => "history-prepare:"@,
            HistoryStage::LoadTiles => "history-load:"@,
            HistoryStage::LoadTree => "history-tree-load:"@,
            HistoryStage::LoadCanvas => "history-page-load:"@,
            HistoryStage::Persist => "history-persist:"@,
            HistoryStage::Accept => "history-accept:"@,
        }
    }

    /// What precedes the host's message where the stage failed.
    pub fn error_lead(self) -> (r: &'static str)
        ensures
            r@ == self.error_lead_text(),
    {
        match self {
            HistoryStage::Prepare => "history-prepare:",
            HistoryStage::LoadTiles => "history-load:",
            HistoryStage::LoadTree => "history-tree-load:",
            HistoryStage::LoadCanvas => "history-page-load:",
            HistoryStage::Persist => "history-persist:",
            HistoryStage::Accept => "history-accept:",
        }
    }

    pub open spec fn followed_by(self, succeeded: bool) -> HistoryStep {
        if !succeeded {
            if self is Prepare { HistoryStep::Rejected } else { HistoryStep::Fatal }
        } else {
            match self {
                HistoryStage::Prepare => HistoryStep::Do(HistoryStage::LoadTiles),
                HistoryStage::LoadTiles => HistoryStep::Do(HistoryStage::LoadTree),
                HistoryStage::LoadTree => HistoryStep::Do(HistoryStage::LoadCanvas),
                HistoryStage::LoadCanvas => HistoryStep::Do(HistoryStage::Persist),
                HistoryStage::Persist => HistoryStep::Do(HistoryStage::Accept),
                HistoryStage::Accept => HistoryStep::Moved,
            }
        }
    }

    /// What follows a finished stage. The cursor is persisted only with
    /// everything loaded, and the session moves only with the cursor durable.
    pub fn next(self, succeeded: bool) -> (r: HistoryStep)
        ensures
            r == self.followed_by(succeeded),
    {
        match self {
            HistoryStage::Prepare => if succeeded {
                HistoryStep::Do(HistoryStage::LoadTiles)
            } else {
                HistoryStep::Rejected
            },
            HistoryStage::LoadTiles => if succeeded {
                HistoryStep::Do(HistoryStage::LoadTree)
            } else {
                HistoryStep::Fatal
            },
            HistoryStage::LoadTree => if succeeded {
                HistoryStep::Do(HistoryStage::LoadCanvas)
            } else {
                HistoryStep::Fatal
            },
            HistoryStage::LoadCanvas => if succeeded {
                HistoryStep::Do(HistoryStage::Persist)
            } else {
                HistoryStep::Fatal
            },
            HistoryStage::Persist => if succeeded {
                HistoryStep::Do(HistoryStage::Accept)
            } else {
                HistoryStep::Fatal
            },
            HistoryStage::Accept => if succeeded {
                HistoryStep::Moved
            } else {
                HistoryStep::Fatal
            },
        }
    }

    /// The timing mark that a successful stage leaves. Tree and page share one.
    pub fn timing_mark(self) -> (r: Option<HistoryWorkerStep>)
        ensures
            r == (match self {
                HistoryStage::Prepare => Some(HistoryWorkerStep::Prepared),
                HistoryStage::LoadTiles => Some(HistoryWorkerStep::TilesLoaded),
                HistoryStage::LoadTree => None,
                HistoryStage::LoadCanvas => Some(HistoryWorkerStep::MetadataLoaded),
                HistoryStage::Persist => Some(HistoryWorkerStep::CursorPersisted),
                HistoryStage::Accept => Some(HistoryWorkerStep::SessionAccepted),
            }),
    {
        match self {
            HistoryStage::Prepare => Some(HistoryWorkerStep::Prepared),
            HistoryStage::LoadTiles => Some(HistoryWorkerStep::TilesLoaded),
            HistoryStage::LoadTree => None,
            HistoryStage::LoadCanvas => Some(HistoryWorkerStep::MetadataLoaded),
            HistoryStage::Persist => Some(HistoryWorkerStep::CursorPersisted),
            HistoryStage::Accept => Some(HistoryWorkerStep::SessionAccepted),
        }
    }
}

/// The layers whose thumbnails are shown: the topmost rows up to the limit.
pub fn thumbnail_layers(tree: &LayerTree, limit: usize) -> (r: Vec<LayerId>)
    ensures
        r@ == ({
            let rows = crate::layer_tree::raster_ids(tree.rasters()).reverse();
            if rows.len() > limit { rows.take(limit as int) } else { rows }
        }),
{
    let mut rows = raster_layer_ids(tree);
    rows.truncate(limit);
    rows
}

/// The time of an entry in the history, from the time since the epoch. A clock
/// before the epoch counts as its start.
pub fn system_timestamp_ns(since_epoch: Option<u128>) -> (r: u64)
    ensures
        r == (match since_epoch {
            Some(nanos) => if nanos <= u64::MAX { nanos as u64 } else { u64::MAX },
            None => 0,
        }),
{
    match since_epoch {
        Some(nanos) => {
            if nanos <= 0xffff_ffff_ffff_ffff {
                nanos as u64
            } else {
                u64::MAX
            }
        },
        None => 0,
    }
}

/// The tree of a restored cursor; one without layer metadata has the topology
/// of its time.
pub fn restored_tree(loaded: Option<LayerTree>) -> (r: LayerTree)
    ensures
        match loaded {
            Some(tree) => r == tree,
            None => crate::layer_tree::is_legacy_tree(r),
        },
{
    match loaded {
        Some(tree) => tree,
        None => legacy_layer_tree(),
    }
}

/// The writer's end of its queue, as the canvas owner counts it.
#[derive(Clone, Copy, Debug, PartialEq, Eq, Structural)]
pub struct WriterLane {
    pub open: bool,
    pub pending: usize,
    pub display_retired: bool,
}

impl WriterLane {
    /// A stroke that the queue took is pending until the writer releases it;
    /// one that it refused never was.
    pub fn stroke_offered(&mut self, answer: LaneAnswer) -> (r: bool)
        requires
            old(self).pending < usize::MAX,
        ensures
            r == (old(self).open && answer is Accepted),
            *final(self) == (WriterLane {
                pending: if r { (old(self).pending + 1) as usize } else { old(self).pending },
                ..*old(self)
            }),
    {
        if !self.open {
            return false;
        }
        match answer {
            LaneAnswer::Accepted => {
                self.pending = self.pending + 1;
                true
            },
            LaneAnswer::Full | LaneAnswer::Disconnected => false,
        }
    }

    /// Only the retiring canvas owner may waive display delivery.
    pub fn retire_display(&mut self)
        ensures
            *final(self) == (WriterLane { display_retired: true, ..*old(self) }),
    {
        self.display_retired = true;
    }

    /// Everything accepted was saved: the writer drained its queue and nothing
    /// is pending.
    pub fn close(&mut self, exit: WorkerExit) -> (r: bool)
        ensures
            r == (exit is Drained && old(self).pending == 0),
            *final(self) == (WriterLane { open: false, display_retired: true, ..*old(self) }),
    {
        self.display_retired = true;
        self.open = false;
        match exit {
            WorkerExit::Drained => self.pending == 0,
            WorkerExit::FailStop | WorkerExit::Panicked => false,
        }
    }
}

/// An export that the writer left behind has failed.
pub fn exit_fails_export(exit: WorkerExit) -> (r: bool)
    ensures
        r == !(exit is Drained),
{
    match exit {
        WorkerExit::Drained => false,
        WorkerExit::FailStop | WorkerExit::Panicked => true,
    }
}

/// History steps only forward: each stage follows the one before it, a failed
/// preparation leaves everything as it was, and any later failure is fatal.
pub proof fn history_moves_in_order(stage: HistoryStage, succeeded: bool)
    ensures
        stage.followed_by(succeeded) matches HistoryStep::Do(next) ==> succeeded && next.number()
            == stage.number() + 1,
        stage.followed_by(succeeded) is Moved <==> succeeded && stage is Accept,
        stage.followed_by(succeeded) is Rejected <==> !succeeded && stage is Prepare,
        stage.followed_by(succeeded) is Fatal <==> !succeeded && !(stage is Prepare),
{
}

/// The writer stops only with its failure published, and goes on after every
/// outcome that is not fatal.
pub proof fn fatal_outcomes_stop_the_writer(state: WriterState, result: ArtworkResult)
    requires
        state.exit is None,
    ensures
        state.artwork_finished(result).exit is Some <==> result is Fatal,
        state.history_finished(result).exit is Some <==> result is Fatal,
        result is Fatal ==> state.artwork_finished(result).effects[state.effects.len() as int]
            is PublishFailure,
{
}

/// Once stopped, the writer takes no request and stays as it is.
pub proof fn stopped_writers_take_nothing(
    state: WriterState,
    work: WriterWork,
    gate: ExportGenerationGate,
    closing: bool,
)
    requires
        state.exit is Some,
    ensures
        state.received(work, gate, closing) == (state, WriterTask::Stopped),
{
}

/// A saved stroke counts down the pending strokes exactly once, whatever
/// becomes of its way to the display.
pub proof fn each_stroke_is_released_once(state: WriterState, result: StrokeResult)
    ensures
        ({
            let after = state.stroke_finished(result).effects;
            let before = state.effects.len() as int;
            &&& after.len() > before
            &&& after.last() is ReleasePending
            &&& forall|i: int| before <= i < after.len() - 1 ==> !(#[trigger] after[i] is ReleasePending)
        }),
{
}

/// A retired display never makes a saved stroke a failure.
pub proof fn retired_displays_never_fail_strokes(
    state: WriterState,
    ordinal: u64,
    retired_before: bool,
    answer: LaneAnswer,
)
    requires
        state.exit is None,
        state.next_id < u128::MAX,
    ensures
        state.stroke_finished(
            StrokeResult::Committed { ordinal, delivery: delivery_of(retired_before, answer, true) },
        ).exit is None,
{
}

} // verus!
