//! Artwork jobs from the canvas's side: how an edit is handed to the worker and
//! how its answer is adopted.
use vstd::prelude::*;

use crate::canvas::{ActiveCanvas, ArtworkJob, BridgeFacts, CanvasState, EditError, EditProjection};
use crate::command::CommandRejectReason;
use crate::document::{LayerId, PixelPoint, PixelSize, Rgba};
use crate::drawing::{DrawingState, DrawingTool};
use crate::edit::EditCommand;
use crate::effect::InkEffect;
use crate::input::PickSequence;
use crate::picker::{PickerSource, PickerToken};
use crate::stroke_pipeline::{GestureState, PipelineState, Selection, TransformState};
use crate::transform::{AffineTransform, MilliPoint, TransformCommand, TransformProjection};

verus! {

/// What the host reports back while an edit command is brought to the worker.
#[derive(Clone, Copy, Debug, PartialEq, Eq)]
pub enum EditProgress {
    Start,
    /// Whether the canvas is idle, with finished tiles adopted.
    Idle(Result<(), CommandRejectReason>),
    /// Whether the scene can take a page of the asked size.
    PageChecked(bool),
    /// Whether input could be paused.
    Paused(bool),
    /// Whether the writer took the request.
    Queued(bool),
}

/// What the host does next for an edit command.
#[derive(Clone, Copy, Debug, PartialEq, Eq)]
pub enum EditStep {
    /// The command is a transform command.
    Transform(TransformCommand),
    CheckIdle,
    CheckPage(PixelSize),
    Pause,
    Queue(ArtworkJob),
    Return(Result<bool, CommandRejectReason>),
}

pub open spec fn edit_job(command: EditCommand) -> ArtworkJob {
    ArtworkJob {
        transform: match command {
            EditCommand::FreeTransform(transform) => Some(transform),
            _ => None,
        },
        temporary_picker: match command {
            EditCommand::PickDisplayColor { point, solo, input_sequence } => Some(input_sequence),
            _ => None,
        },
        picker_token: None,
        active_layer: None,
    }
}

fn job_for_edit(command: EditCommand) -> (r: ArtworkJob)
    ensures
        r == edit_job(command),
{
    ArtworkJob {
        transform: match command {
            EditCommand::FreeTransform(transform) => Some(transform),
            _ => None,
        },
        temporary_picker: match command {
            EditCommand::PickDisplayColor { input_sequence, .. } => Some(input_sequence),
            _ => None,
        },
        picker_token: None,
        active_layer: None,
    }
}

impl<P, D, A> CanvasState<P, D, A> {
    pub open spec fn artwork_enqueued(self, job: ArtworkJob, queued: bool) -> (Self, Result<
        bool,
        CommandRejectReason,
    >) {
        if queued {
            (self.job_queued(job), Ok(false))
        } else {
            (
                self.with_effect(InkEffect::ResumeAfterEdit),
                Err(CommandRejectReason::CommandQueueBusy),
            )
        }
    }

    /// One step of an edit command.
    pub open spec fn edit_stepped(self, command: EditCommand, progress: EditProgress) -> (
        Self,
        EditStep,
    ) {
        match progress {
            EditProgress::Start => (
                self,
                match command {
                    EditCommand::FreeTransform(transform) => EditStep::Transform(transform),
                    EditCommand::PasteSelection => EditStep::Transform(TransformCommand::Paste),
                    _ => if self.stroke.transform.projection is Some {
                        EditStep::Return(Err(CommandRejectReason::CommandQueueBusy))
                    } else {
                        EditStep::CheckIdle
                    },
                },
            ),
            EditProgress::Idle(Err(reason)) => (self, EditStep::Return(Err(reason))),
            EditProgress::Idle(Ok(_)) => (
                self,
                match command {
                    EditCommand::ResizePage { size } => EditStep::CheckPage(size),
                    _ => EditStep::Pause,
                },
            ),
            EditProgress::PageChecked(fits) => (
                self,
                if fits {
                    EditStep::Pause
                } else {
                    EditStep::Return(Err(CommandRejectReason::WorkspaceFailed))
                },
            ),
            EditProgress::Paused(paused) => (
                self,
                if paused {
                    EditStep::Queue(edit_job(command))
                } else {
                    EditStep::Return(Err(CommandRejectReason::CommandQueueBusy))
                },
            ),
            EditProgress::Queued(queued) => {
                let (state, result) = self.artwork_enqueued(edit_job(command), queued);
                (state, EditStep::Return(result))
            },
        }
    }
}

impl<P: Copy, D, A> ActiveCanvas<P, D, A> {
    /// One step of an edit command. The host starts with
    /// [`EditProgress::Start`], performs each step and reports back until the
    /// result is returned.
    pub fn enqueue_edit(&mut self, command: EditCommand, progress: EditProgress) -> (r: EditStep)
        ensures
            (final(self)@, r) == old(self)@.edit_stepped(command, progress),
    {
        match progress {
            EditProgress::Start => match command {
                EditCommand::FreeTransform(transform) => EditStep::Transform(transform),
                EditCommand::PasteSelection => EditStep::Transform(TransformCommand::Paste),
                _ => {
                    if self.stroke.transform.projection.is_some() {
                        EditStep::Return(Err(CommandRejectReason::CommandQueueBusy))
                    } else {
                        EditStep::CheckIdle
                    }
                },
            },
            EditProgress::Idle(Err(reason)) => EditStep::Return(Err(reason)),
            EditProgress::Idle(Ok(_)) => match command {
                EditCommand::ResizePage { size } => EditStep::CheckPage(size),
                _ => EditStep::Pause,
            },
            EditProgress::PageChecked(fits) => {
                if fits {
                    EditStep::Pause
                } else {
                    EditStep::Return(Err(CommandRejectReason::WorkspaceFailed))
                }
            },
            EditProgress::Paused(paused) => {
                if paused {
                    EditStep::Queue(job_for_edit(command))
                } else {
                    EditStep::Return(Err(CommandRejectReason::CommandQueueBusy))
                }
            },
            EditProgress::Queued(queued) => EditStep::Return(
                self.enqueue_artwork(job_for_edit(command), queued),
            ),
        }
    }
}

/// A finished native gesture on its way to the worker, with the pick it owns.
#[derive(Clone, Copy, Debug, PartialEq, Eq, Structural)]
pub struct NativeEdit {
    pub command: EditCommand,
    pub temporary_picker: Option<PickSequence>,
    pub picker_token: Option<PickerToken>,
}

/// What the host does with a finished native gesture.
#[derive(Clone, Copy, Debug, PartialEq, Eq, Structural)]
pub enum NativeEditStep {
    /// No gesture has finished.
    Nothing,
    /// The gesture is settled; the canvas is published.
    Publish,
    /// The move becomes a transform draft: begin one.
    BeginTransform(NativeEdit),
    /// Bring the command to the worker.
    Enqueue(NativeEdit),
}

/// A temporary read looks at what the canvas displays.
pub open spec fn pick_command(
    command: EditCommand,
    temporary: Option<PickSequence>,
    gesture: GestureState,
) -> EditCommand {
    match (command, temporary) {
        (EditCommand::PickColor { point, source }, Some(input_sequence)) => {
            EditCommand::PickDisplayColor {
                point,
                solo: match gesture.picker {
                    Some(picker) => match picker.source {
                        PickerSource::Display(solo) => solo,
                        PickerSource::Artwork(_) => None,
                    },
                    None => None,
                },
                input_sequence,
            }
        },
        _ => command,
    }
}

fn shown_pick(command: EditCommand, temporary: Option<PickSequence>, gesture: GestureState) -> (r:
    EditCommand)
    ensures
        r == pick_command(command, temporary, gesture),
{
    match (command, temporary) {
        (EditCommand::PickColor { point, .. }, Some(input_sequence)) => {
            let solo = match gesture.picker {
                Some(picker) => match picker.source {
                    PickerSource::Display(solo) => solo,
                    PickerSource::Artwork(_) => None,
                },
                None => None,
            };
            EditCommand::PickDisplayColor { point, solo, input_sequence }
        },
        _ => command,
    }
}

/// A move by whole pixels as a transform.
pub open spec fn pixel_move(offset: PixelPoint) -> AffineTransform {
    AffineTransform {
        offset_milli: MilliPoint {
            x: (offset.x * 1000) as i64,
            y: (offset.y * 1000) as i64,
        },
        ..crate::transform::identity()
    }
}

impl GestureState {
    /// The contact whose pick was released.
    pub open spec fn released_token(self) -> Option<PickerToken> {
        match self.picker {
            Some(picker) => if picker.released { Some(picker.token) } else { None },
            None => None,
        }
    }
}

impl<P, D, A> CanvasState<P, D, A> {
    pub open spec fn with_gesture(self, gesture: GestureState) -> Self {
        CanvasState { stroke: self.stroke.with_gesture(gesture), ..self }
    }

    pub open spec fn picker_given_up(self) -> Self {
        CanvasState { stroke: self.stroke.cancelling_picker(), ..self }
    }

    pub open spec fn pick_answered(self, temporary: Option<PickSequence>) -> Self {
        match temporary {
            Some(sequence) => self.with_effect(InkEffect::CompleteTemporaryPick(sequence)),
            None => self,
        }
    }

    /// A finished gesture that came to nothing.
    pub open spec fn native_edit_failed(
        self,
        error: EditError,
        temporary: Option<PickSequence>,
        token: Option<PickerToken>,
    ) -> Self {
        let quiet = if token is Some { self.picker_given_up() } else { self };
        let answered = if temporary is Some {
            quiet.pick_answered(temporary).with_effect(InkEffect::ResumeAfterEdit)
        } else {
            quiet
        };
        CanvasState { edit: EditProjection { error: Some(error), ..answered.edit }, ..answered }
    }

    /// The last finished gesture is taken up.
    pub open spec fn native_edit_taken(self, bridge: BridgeFacts, revision: u64) -> (
        Self,
        NativeEditStep,
    ) {
        let gesture = self.stroke.gesture;
        let temporary = gesture.completed_temporary_picker;
        let token = gesture.released_token();
        let taken = self.with_gesture(
            GestureState { completed_edit: None, completed_temporary_picker: None, ..gesture },
        );
        match gesture.completed_edit {
            None => (self, NativeEditStep::Nothing),
            Some(Err(error)) => (
                taken.native_edit_failed(EditError::Gesture(error), temporary, token).based_on(
                    revision,
                ),
                NativeEditStep::Publish,
            ),
            Some(Ok(command)) => {
                let owned = token matches Some(token) && self.owns_pick(token, bridge);
                if command.picks() && !owned {
                    (
                        taken.picker_given_up().pick_answered(temporary).based_on(revision),
                        NativeEditStep::Publish,
                    )
                } else {
                    let command = pick_command(command, temporary, gesture);
                    let edit = NativeEdit {
                        command,
                        temporary_picker: temporary,
                        picker_token: token,
                    };
                    (
                        taken,
                        if command is Transform && self.drawing.tool is MoveSelection {
                            NativeEditStep::BeginTransform(edit)
                        } else {
                            NativeEditStep::Enqueue(edit)
                        },
                    )
                }
            },
        }
    }

    pub open spec fn native_transform_begun(
        self,
        edit: NativeEdit,
        result: Result<bool, CommandRejectReason>,
        revision: u64,
    ) -> Self {
        (match result {
            Ok(_) => match edit.command {
                EditCommand::Transform { offset, edit: _ } => self.with_transform(
                    TransformState { pending: Some(pixel_move(offset)), ..self.stroke.transform },
                ),
                _ => self,
            },
            Err(reason) => self.native_edit_failed(
                EditError::TransformNotStarted(reason),
                edit.temporary_picker,
                edit.picker_token,
            ),
        }).based_on(revision)
    }

    pub open spec fn native_edit_enqueued(
        self,
        edit: NativeEdit,
        result: Result<bool, CommandRejectReason>,
        bridge: BridgeFacts,
        revision: u64,
    ) -> Self {
        (match result {
            Ok(_) => match self.artwork_job {
                Some(job) => {
                    let owned = CanvasState {
                        artwork_job: Some(ArtworkJob { picker_token: edit.picker_token, ..job }),
                        ..self
                    };
                    if edit.picker_token is Some { owned.staging_cancel(bridge) } else { owned }
                },
                None => self,
            },
            Err(reason) => if (edit.temporary_picker is Some || edit.picker_token is Some) && (
            reason is CommandQueueBusy || reason is StaleProjection) {
                self.with_gesture(
                    GestureState {
                        completed_edit: Some(Ok(edit.command)),
                        completed_temporary_picker: edit.temporary_picker,
                        ..self.stroke.gesture
                    },
                )
            } else {
                self.native_edit_failed(
                    EditError::NotApplied(reason),
                    edit.temporary_picker,
                    edit.picker_token,
                )
            },
        }).based_on(revision)
    }
}

impl<P: Copy, D, A> ActiveCanvas<P, D, A> {
    fn fail_native_edit(
        &mut self,
        error: EditError,
        temporary: Option<PickSequence>,
        token: Option<PickerToken>,
    )
        ensures
            final(self)@ == old(self)@.native_edit_failed(error, temporary, token),
    {
        if token.is_some() {
            self.stroke.cancel_picker();
        }
        if let Some(sequence) = temporary {
            self.stroke.effects.push(InkEffect::CompleteTemporaryPick(sequence));
            self.stroke.effects.push(InkEffect::ResumeAfterEdit);
        }
        self.edit.error = Some(error);
    }

    /// Takes up the last finished native gesture. A pick that lost its contact
    /// is answered without being read, and a move of the selection becomes a
    /// draft instead of an immediate edit.
    pub fn adopt_native_edit(&mut self, bridge: BridgeFacts, revision: u64) -> (r: NativeEditStep)
        ensures
            (final(self)@, r) == old(self)@.native_edit_taken(bridge, revision),
    {
        let gesture = self.stroke.gesture;
        let result = match gesture.completed_edit {
            None => {
                return NativeEditStep::Nothing;
            },
            Some(result) => result,
        };
        let temporary = gesture.completed_temporary_picker;
        self.stroke.gesture = GestureState {
            completed_edit: None,
            completed_temporary_picker: None,
            ..gesture
        };
        let token = match gesture.picker {
            Some(picker) => if picker.released {
                Some(picker.token)
            } else {
                None
            },
            None => None,
        };
        match result {
            Err(error) => {
                self.fail_native_edit(EditError::Gesture(error), temporary, token);
                self.remember_publication_base(revision);
                NativeEditStep::Publish
            },
            Ok(command) => {
                let owned = match token {
                    Some(token) => self.picker_token_valid(token, bridge),
                    None => false,
                };
                if command.is_pick() && !owned {
                    self.stroke.cancel_picker();
                    if let Some(sequence) = temporary {
                        self.stroke.effects.push(InkEffect::CompleteTemporaryPick(sequence));
                    }
                    self.remember_publication_base(revision);
                    return NativeEditStep::Publish;
                }
                let command = shown_pick(command, temporary, gesture);
                let edit = NativeEdit {
                    command,
                    temporary_picker: temporary,
                    picker_token: token,
                };
                if matches!(command, EditCommand::Transform { .. }) && self.drawing.tool
                    == DrawingTool::MoveSelection {
                    NativeEditStep::BeginTransform(edit)
                } else {
                    NativeEditStep::Enqueue(edit)
                }
            },
        }
    }

    /// Takes the result of the transform that a native move began.
    pub fn native_transform_begun(
        &mut self,
        edit: NativeEdit,
        result: Result<bool, CommandRejectReason>,
        revision: u64,
    )
        ensures
            final(self)@ == old(self)@.native_transform_begun(edit, result, revision),
    {
        match result {
            Ok(_) => {
                if let EditCommand::Transform { offset, .. } = edit.command {
                    let x: i64 = offset.x as i64 * 1000;
                    let y: i64 = offset.y as i64 * 1000;
                    let moved = AffineTransform {
                        offset_milli: MilliPoint { x, y },
                        ..AffineTransform::default()
                    };
                    self.stroke.transform.pending = Some(moved);
                }
            },
            Err(reason) => self.fail_native_edit(
                EditError::TransformNotStarted(reason),
                edit.temporary_picker,
                edit.picker_token,
            ),
        }
        self.remember_publication_base(revision);
    }

    /// Takes the result of bringing a native edit to the worker. A pick that
    /// met a busy canvas is kept for the next frame.
    pub fn native_edit_enqueued(
        &mut self,
        edit: NativeEdit,
        result: Result<bool, CommandRejectReason>,
        bridge: BridgeFacts,
        revision: u64,
    )
        ensures
            final(self)@ == old(self)@.native_edit_enqueued(edit, result, bridge, revision),
    {
        match result {
            Ok(_) => {
                if let Some(job) = self.artwork_job {
                    self.artwork_job = Some(ArtworkJob { picker_token: edit.picker_token, ..job });
                    if edit.picker_token.is_some() {
                        self.stage_cancel_availability(bridge);
                    }
                }
            },
            Err(reason) => {
                let picks = edit.temporary_picker.is_some() || edit.picker_token.is_some();
                if picks && matches!(
                    reason,
                    CommandRejectReason::CommandQueueBusy | CommandRejectReason::StaleProjection { .. }
                ) {
                    self.stroke.gesture = GestureState {
                        completed_edit: Some(Ok(edit.command)),
                        completed_temporary_picker: edit.temporary_picker,
                        ..self.stroke.gesture
                    };
                } else {
                    self.fail_native_edit(
                        EditError::NotApplied(reason),
                        edit.temporary_picker,
                        edit.picker_token,
                    );
                }
            },
        }
        self.remember_publication_base(revision);
    }
}

/// The worker's answer to the artwork job.
#[derive(Clone, Copy, Debug, PartialEq, Eq, Structural)]
pub enum ArtworkAnswer {
    /// Nothing came yet.
    Empty,
    Disconnected,
    Transform,
    Edit { active_layer: Option<LayerId>, sampled_color: Option<Rgba>, changed: bool },
    History { changed: bool },
    Rejected(u64),
    Fatal(u64),
}

/// What the host does with the worker's answer.
#[derive(Clone, Copy, Debug, PartialEq, Eq, Structural)]
pub enum PollStep {
    Idle,
    /// The workspace fails with the worker's message.
    Fail(WorkerFailure),
    InstallTransform,
    /// Install the history move where the artwork changed, and the selection.
    InstallEdit { changed: bool },
    InstallHistory { changed: bool },
    Settle { error: Option<EditError> },
}

#[derive(Clone, Copy, Debug, PartialEq, Eq, Structural)]
pub enum WorkerFailure {
    Disconnected,
    Reported(u64),
}

impl WorkerFailure {
    pub fn message(self) -> (r: Option<&'static str>)
        ensures
            self is Reported <==> r is None,
            r matches Some(text) ==> text@ == "Artwork worker disconnected"@,
    {
        match self {
            WorkerFailure::Disconnected => Some("Artwork worker disconnected"),
            WorkerFailure::Reported(_) => None,
        }
    }
}

impl<P, D, A> CanvasState<P, D, A> {
    /// The pick of a job has lost its contact.
    pub open spec fn pick_lost(self, job: ArtworkJob, bridge: BridgeFacts) -> bool {
        job.picker_token matches Some(token) && !self.owns_pick(token, bridge)
    }

    pub open spec fn commit_withdrawn(self) -> Self {
        match self.stroke.transform.projection {
            Some(projection) => self.with_transform(
                TransformState {
                    projection: Some(
                        TransformProjection { can_commit: false, ..projection },
                    ),
                    ..self.stroke.transform
                },
            ),
            None => self,
        }
    }

    pub open spec fn answered(self, answer: ArtworkAnswer, bridge: BridgeFacts) -> (
        Self,
        PollStep,
    ) {
        match self.artwork_job {
            None => (self, PollStep::Idle),
            Some(job) => match answer {
                ArtworkAnswer::Empty => (self, PollStep::Idle),
                ArtworkAnswer::Disconnected => (self, PollStep::Fail(WorkerFailure::Disconnected)),
                ArtworkAnswer::Fatal(message) => (
                    self,
                    PollStep::Fail(WorkerFailure::Reported(message)),
                ),
                ArtworkAnswer::Transform => (self, PollStep::InstallTransform),
                ArtworkAnswer::Edit { active_layer, sampled_color, changed } => if self.pick_lost(
                    job,
                    bridge,
                ) {
                    (self, PollStep::Settle { error: None })
                } else {
                    (
                        CanvasState {
                            active_layer: match active_layer {
                                Some(layer) => layer,
                                None => self.active_layer,
                            },
                            drawing: match sampled_color {
                                Some(color) => DrawingState { color, ..self.drawing },
                                None => self.drawing,
                            },
                            ..self
                        },
                        PollStep::InstallEdit { changed },
                    )
                },
                ArtworkAnswer::History { changed } => (
                    CanvasState {
                        active_layer: match job.active_layer {
                            Some(layer) => layer,
                            None => self.active_layer,
                        },
                        ..self
                    },
                    PollStep::InstallHistory { changed },
                ),
                ArtworkAnswer::Rejected(message) => if self.pick_lost(job, bridge) {
                    (self, PollStep::Settle { error: None })
                } else {
                    (
                        self.transform_rejected(job.transform).commit_withdrawn(),
                        PollStep::Settle { error: Some(EditError::Worker(message)) },
                    )
                },
            },
        }
    }

    /// Masks are compared by identity.
    pub open spec fn mask_changes(self, selection: Option<Selection>) -> bool {
        match (self.stroke.selection, selection) {
            (Some(current), Some(next)) => current.mask != next.mask,
            (None, None) => false,
            _ => true,
        }
    }

    pub open spec fn with_selection(self, selection: Option<Selection>) -> Self {
        CanvasState { stroke: PipelineState { selection, ..self.stroke }, ..self }
    }

    /// The job is over: its pick is answered, the edit state rests and input
    /// resumes.
    pub open spec fn artwork_settled(self, error: Option<EditError>, revision: u64) -> Self {
        let job = self.artwork_job;
        let free = CanvasState { artwork_job: None, ..self };
        let quiet = if job matches Some(job) && job.picker_token is Some {
            free.picker_given_up()
        } else {
            free
        };
        let answered = match job {
            Some(job) => quiet.pick_answered(job.temporary_picker),
            None => quiet,
        };
        CanvasState {
            edit: EditProjection {
                busy: false,
                can_cancel: answered.stroke.transform.projection is Some,
                has_selection: answered.stroke.selection is Some,
                selected_pixels: match answered.stroke.selection {
                    Some(selection) => selection.selected_pixels,
                    None => 0,
                },
                error,
                transform: answered.stroke.transform.projection,
            },
            ..answered
        }.with_effect(InkEffect::ResumeAfterEdit).based_on(revision)
    }
}

impl<P: Copy, D, A> ActiveCanvas<P, D, A> {
    fn withdraw_commit(&mut self)
        ensures
            final(self)@ == old(self)@.commit_withdrawn(),
            old(self)@.wf() ==> final(self)@.wf(),
    {
        if let Some(projection) = self.stroke.transform.projection {
            self.stroke.transform.projection = Some(
                TransformProjection { can_commit: false, ..projection },
            );
        }
    }

    /// Takes the worker's answer to the artwork job. An answer whose pick lost
    /// its contact changes neither colour nor artwork. After an installation
    /// the host settles the job; where one fails the job stays and the
    /// workspace fails.
    #[verifier::rlimit(30)]
    pub fn poll_artwork(&mut self, answer: ArtworkAnswer, bridge: BridgeFacts) -> (r: PollStep)
        requires
            old(self)@.wf(),
        ensures
            (final(self)@, r) == old(self)@.answered(answer, bridge),
            final(self)@.wf(),
    {
        let job = match self.artwork_job {
            None => {
                return PollStep::Idle;
            },
            Some(job) => job,
        };
        let lost = match job.picker_token {
            Some(token) => !self.picker_token_valid(token, bridge),
            None => false,
        };
        match answer {
            ArtworkAnswer::Empty => PollStep::Idle,
            ArtworkAnswer::Disconnected => PollStep::Fail(WorkerFailure::Disconnected),
            ArtworkAnswer::Fatal(message) => PollStep::Fail(WorkerFailure::Reported(message)),
            ArtworkAnswer::Transform => PollStep::InstallTransform,
            ArtworkAnswer::Edit { active_layer, sampled_color, changed } => {
                if lost {
                    return PollStep::Settle { error: None };
                }
                if let Some(layer) = active_layer {
                    self.active_layer = layer;
                }
                if let Some(color) = sampled_color {
                    self.drawing.color = color;
                }
                PollStep::InstallEdit { changed }
            },
            ArtworkAnswer::History { changed } => {
                if let Some(layer) = job.active_layer {
                    self.active_layer = layer;
                }
                PollStep::InstallHistory { changed }
            },
            ArtworkAnswer::Rejected(message) => {
                if lost {
                    return PollStep::Settle { error: None };
                }
                self.reject_transform_outcome(job.transform);
                self.withdraw_commit();
                PollStep::Settle { error: Some(EditError::Worker(message)) }
            },
        }
    }

    /// Ends the artwork job once its answer is shown. The host publishes the
    /// canvas next.
    pub fn settle_artwork(&mut self, error: Option<EditError>, revision: u64)
        ensures
            final(self)@ == old(self)@.artwork_settled(error, revision),
    {
        let job = self.artwork_job;
        self.artwork_job = None;
        if let Some(job) = job {
            if job.picker_token.is_some() {
                self.stroke.cancel_picker();
            }
            if let Some(sequence) = job.temporary_picker {
                self.stroke.effects.push(InkEffect::CompleteTemporaryPick(sequence));
            }
        }
        let selected_pixels: u64 = match self.stroke.selection {
            Some(selection) => selection.selected_pixels,
            None => 0,
        };
        self.edit = EditProjection {
            busy: false,
            can_cancel: self.stroke.transform.projection.is_some(),
            has_selection: self.stroke.selection.is_some(),
            selected_pixels,
            error,
            transform: self.stroke.transform.projection,
        };
        self.stroke.effects.push(InkEffect::ResumeAfterEdit);
        self.remember_publication_base(revision);
    }

    /// Whether the painters need the mask of a selection.
    pub fn selection_mask_changes(&self, selection: &Option<Selection>) -> (r: bool)
        ensures
            r == self@.mask_changes(*selection),
    {
        match (&self.stroke.selection, selection) {
            (Some(current), Some(next)) => current.mask != next.mask,
            (None, None) => false,
            _ => true,
        }
    }

    /// Shows a selection. Where its mask is new to the painters, `adopted` says
    /// whether they took it; a selection that they refused is not shown.
    pub fn install_selection(&mut self, selection: Option<Selection>, adopted: bool) -> (r: Result<
        (),
        SelectionRefused,
    >)
        ensures
            r is Err <==> old(self)@.mask_changes(selection) && !adopted,
            final(self)@ == if r is Ok {
                old(self)@.with_selection(selection)
            } else {
                old(self)@
            },
    {
        if self.selection_mask_changes(&selection) && !adopted {
            return Err(SelectionRefused);
        }
        self.stroke.selection = selection;
        Ok(())
    }
}

/// The painters could not take a selection's mask.
#[derive(Clone, Copy, Debug, PartialEq, Eq, Structural)]
pub struct SelectionRefused;

impl SelectionRefused {
    /// The workspace error, before the painter's own words.
    pub fn lead(self) -> (r: &'static str)
        ensures
            r@ == "Selection could not be adopted by the GPU: "@,
    {
        "Selection could not be adopted by the GPU: "
    }
}

/// A temporary pick that was read, refused or lost is answered when its job is
/// settled, exactly once, and input resumes after it.
pub proof fn settled_picks_are_answered<P, D, A>(
    state: CanvasState<P, D, A>,
    sequence: PickSequence,
    error: Option<EditError>,
    revision: u64,
)
    requires
        state.artwork_job matches Some(job) && job.temporary_picker == Some(sequence)
            && job.picker_token is None,
    ensures
        ({
            let after = state.artwork_settled(error, revision);
            &&& after.artwork_job is None
            &&& after.stroke.effects == state.stroke.effects.push(
                InkEffect::CompleteTemporaryPick(sequence),
            ).push(InkEffect::ResumeAfterEdit)
        }),
{
}

/// A colour that was read for a contact that is gone is never adopted.
pub proof fn lost_picks_change_no_color<P, D, A>(
    state: CanvasState<P, D, A>,
    answer: ArtworkAnswer,
    bridge: BridgeFacts,
)
    requires
        state.artwork_job matches Some(job) && state.pick_lost(job, bridge),
        answer is Edit || answer is Rejected,
    ensures
        state.answered(answer, bridge) == (state, PollStep::Settle { error: None }),
{
}

/// A pick that met a busy canvas waits with its contact; it neither fails nor
/// turns into another edit.
pub proof fn busy_picks_wait<P, D, A>(
    state: CanvasState<P, D, A>,
    edit: NativeEdit,
    bridge: BridgeFacts,
    revision: u64,
)
    requires
        edit.temporary_picker is Some || edit.picker_token is Some,
    ensures
        ({
            let after = state.native_edit_enqueued(
                edit,
                Err(CommandRejectReason::CommandQueueBusy),
                bridge,
                revision,
            );
            &&& after.stroke.gesture.completed_edit == Some(
                Ok::<_, crate::edit::GestureError>(edit.command),
            )
            &&& after.stroke.gesture.completed_temporary_picker == edit.temporary_picker
            &&& after.edit == state.edit
            &&& after.stroke.effects == state.stroke.effects
        }),
{
}

/// A failed worker leaves the job in place: nothing of it is shown.
pub proof fn failed_workers_change_nothing<P, D, A>(
    state: CanvasState<P, D, A>,
    answer: ArtworkAnswer,
    bridge: BridgeFacts,
)
    requires
        answer is Disconnected || answer is Fatal,
    ensures
        state.answered(answer, bridge).0 == state,
        state.artwork_job is Some <==> state.answered(answer, bridge).1 is Fail,
{
}

} // verus!
