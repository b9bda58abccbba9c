//! Brush contacts, step by step, and the closing of strokes.
use vstd::prelude::*;

use crate::document::{LayerId, Rgba};
use crate::drawing::{BrushPreset, DrawingTool};
use crate::edit::GestureError;
use crate::effect::{InkEffect, Notice, WorkspaceFailure};
use crate::input::{PointerPhase, StylusSample};
use crate::stroke::{
    append_gpu_dabs, ClosedStroke, ClosedStrokeRequest, GpuOp, GpuStrokeOp, LiveStroke,
    LiveStrokeDisposition, OpenStroke,
};
use crate::stroke_pipeline::{GestureState, PipelineState, Selection, StrokeCount, StrokePipeline};
use crate::usage::StrokeDrain;

verus! {

/// Which smoother corrects a brush sample.
#[derive(Clone, Copy, Debug, PartialEq, Eq, Structural)]
pub enum SmoothingPlan {
    /// A new smoother of this strength.
    Fresh(u8),
    /// The smoother of the stroke in progress.
    Continue { generation: u64 },
    Unsmoothed,
}

/// A stroke that was accepted at its `Begin`: what the brush engine starts with.
#[derive(Clone, Copy, Debug, PartialEq, Eq)]
pub struct StrokeStart<P> {
    pub generation: u64,
    pub layer: LayerId,
    pub sample: StylusSample<P>,
    pub brush: BrushPreset,
    pub color: Rgba,
    pub eraser: bool,
    pub alpha_locked: bool,
    pub selection: Option<Selection>,
}

impl<P, D, A> PipelineState<P, D, A> {
    pub open spec fn smoothing_plan(self, sample: StylusSample<P>) -> SmoothingPlan {
        if sample.phase is Begin {
            SmoothingPlan::Fresh(self.drawing.for_stroke(sample.eraser).brush_settings.smoothing)
        } else {
            match self.active {
                Some(active) => SmoothingPlan::Continue { generation: active.generation },
                None => SmoothingPlan::Unsmoothed,
            }
        }
    }

    pub open spec fn backlog_full(self) -> bool {
        self.backlog.len() >= self.limits.backlog
    }

    /// The stroke erases, by its tool or by a flipped pen.
    pub open spec fn erases(self, sample: StylusSample<P>) -> bool {
        self.drawing.tool is Eraser || sample.eraser
    }

    /// What the brush engine starts with when the stroke is accepted.
    pub open spec fn stroke_start(
        self,
        sample: StylusSample<P>,
        begin_layer: Option<LayerId>,
    ) -> StrokeStart<P> {
        let eraser = self.erases(sample);
        StrokeStart {
            generation: self.count.next_generation,
            layer: match begin_layer {
                Some(layer) => layer,
                None => self.focus.layer,
            },
            sample: StylusSample { eraser, ..sample },
            brush: self.drawing.for_stroke(eraser).brush(),
            color: self.drawing.color,
            eraser,
            alpha_locked: self.focus.alpha_locked,
            selection: self.selection,
        }
    }

    pub open spec fn starting_stroke(self, start: StrokeStart<P>) -> Self {
        let idle = self.dropping_active(false);
        PipelineState {
            count: StrokeCount {
                next_generation: crate::stroke_pipeline::saturating_next(
                    self.count.next_generation,
                ),
                ..self.count
            },
            gpu_ops: idle.gpu_ops.push(
                GpuOp::Replace {
                    generation: start.generation,
                    layer: start.layer,
                    color: start.color,
                    eraser: start.eraser,
                    alpha_locked: start.alpha_locked,
                },
            ),
            active: Some(
                OpenStroke {
                    generation: start.generation,
                    layer: start.layer,
                    gpu_op_start: idle.gpu_ops.len() as int,
                    samples: seq![start.sample],
                    sample_limit: self.limits.samples_per_stroke as int,
                    sample_limit_exceeded: false,
                    brush: start.brush,
                    color: start.color,
                    eraser: start.eraser,
                    alpha_locked: start.alpha_locked,
                    selection: start.selection,
                },
            ),
            ..idle
        }
    }

    /// A brush `Begin`: refused while the backlog is full or where erasing
    /// would cut locked alpha, else a new stroke.
    pub open spec fn brush_begun(self, sample: StylusSample<P>, begin_layer: Option<LayerId>) -> (
        Self,
        Option<StrokeStart<P>>,
    ) {
        if self.backlog_full() {
            (
                self.with_effect(
                    InkEffect::PublishWorkspaceFailure(WorkspaceFailure::BacklogFull),
                ).failed_closed(),
                None,
            )
        } else if self.focus.alpha_locked && self.erases(sample) {
            (
                self.dropping_active(false).with_gesture(
                    GestureState {
                        completed_edit: Some(Err(GestureError::EraseOnLockedAlpha)),
                        ..self.gesture
                    },
                ).awaiting(true),
                None,
            )
        } else {
            let start = self.stroke_start(sample, begin_layer);
            (self.starting_stroke(start), Some(start))
        }
    }

    /// The size that a started stroke used.
    pub open spec fn used_size(self, sample: StylusSample<P>) -> u16 {
        if self.erases(sample) && !(self.drawing.tool is Eraser) {
            self.drawing.remembered[3].size_tenths
        } else {
            self.drawing.size_tenths
        }
    }

    /// The colour that a started stroke used, where it paints with one.
    pub open spec fn used_color(self, sample: StylusSample<P>) -> Option<Rgba> {
        if !self.erases(sample) && (self.drawing.tool is Pencil || self.drawing.tool is Pen
            || self.drawing.tool is Brush) {
            Some(self.drawing.color)
        } else {
            None
        }
    }

    pub open spec fn extending(self, sample: StylusSample<P>) -> Self {
        match self.active {
            Some(active) => PipelineState {
                active: Some(active.retaining(active.recorded(sample))),
                ..self
            },
            None => self,
        }
    }

    /// The dabs of the stroke in progress join the pending operations.
    pub open spec fn drawing_dabs(self, dabs: Seq<D>) -> Self {
        match self.active {
            Some(active) => PipelineState {
                gpu_ops: crate::stroke::with_dabs(self.gpu_ops, active.generation, dabs),
                ..self
            },
            None => self,
        }
    }

    /// The stroke in progress ends here.
    pub open spec fn closing(self, dabs: Seq<D>) -> Self {
        match self.active {
            Some(active) => PipelineState {
                active: None,
                count: StrokeCount {
                    closed: crate::stroke_pipeline::saturating_next(self.count.closed),
                    last_closed_layer: Some(active.layer),
                    ..self.count
                },
                gpu_ops: self.drawing_dabs(dabs).gpu_ops.push(
                    GpuOp::Finish {
                        generation: active.generation,
                        disposition: if active.sample_limit_exceeded {
                            LiveStrokeDisposition::Cancel
                        } else {
                            LiveStrokeDisposition::Commit
                        },
                    },
                ),
                ..self
            },
            None => self,
        }
    }
}

pub open spec fn request_view<P, A>(request: Option<ClosedStrokeRequest<P, A>>) -> Option<
    ClosedStroke<P, A>,
> {
    match request {
        Some(request) => Some(request@),
        None => None,
    }
}

impl<P: Copy, D, A> StrokePipeline<P, D, A> {
    pub fn plan_smoothing(&self, sample: &StylusSample<P>) -> (r: SmoothingPlan)
        requires
            self@.wf(),
        ensures
            r == self@.smoothing_plan(*sample),
    {
        if sample.phase == PointerPhase::Begin {
            SmoothingPlan::Fresh(self.drawing.smoothing_for_stroke(sample.eraser))
        } else {
            match &self.active {
                Some(active) => SmoothingPlan::Continue { generation: active.generation },
                None => SmoothingPlan::Unsmoothed,
            }
        }
    }

    /// A brush `Begin`. An accepted one is recorded in the report.
    pub fn brush_begin(
        &mut self,
        sample: StylusSample<P>,
        begin_layer: Option<LayerId>,
        report: &mut StrokeDrain,
    ) -> (r: Option<StrokeStart<P>>)
        requires
            old(self)@.wf(),
        ensures
            (final(self)@, r) == old(self)@.brush_begun(sample, begin_layer),
            final(self)@.wf(),
            r is None ==> *final(report) == *old(report),
            r is Some ==> {
                &&& final(report).samples == old(report).samples
                &&& final(report).artwork_closed == old(report).artwork_closed
                &&& final(report).started_brush_sizes@ == crate::usage::promoted(
                    old(report).started_brush_sizes@,
                    old(self)@.used_size(sample),
                )
                &&& match old(self)@.used_color(sample) {
                    Some(color) => final(report).started_brush_colors@ == crate::usage::promoted(
                        old(report).started_brush_colors@,
                        color,
                    ),
                    None => final(report).started_brush_colors == old(report).started_brush_colors,
                }
            },
    {
        if self.pending_materializations.len() >= self.limits.backlog {
            self.effects.push(InkEffect::PublishWorkspaceFailure(WorkspaceFailure::BacklogFull));
            self.fail_closed();
            return None;
        }
        self.drop_active(false);
        let eraser = self.drawing.tool == DrawingTool::Eraser || sample.eraser;
        if self.focus.alpha_locked && eraser {
            self.gesture.completed_edit = Some(Err(GestureError::EraseOnLockedAlpha));
            self.recovery.awaiting_clean_begin = true;
            return None;
        }
        let used_size: u16 = if eraser && self.drawing.tool != DrawingTool::Eraser {
            self.drawing.remembered[3].size_tenths
        } else {
            self.drawing.size_tenths
        };
        let used_color = if !eraser && (self.drawing.tool == DrawingTool::Pencil
            || self.drawing.tool == DrawingTool::Pen || self.drawing.tool == DrawingTool::Brush) {
            Some(self.drawing.color)
        } else {
            None
        };
        let start = StrokeStart {
            generation: self.count.next_generation,
            layer: match begin_layer {
                Some(layer) => layer,
                None => self.focus.layer,
            },
            sample: StylusSample { eraser, ..sample },
            brush: self.drawing.preset_for_stroke(eraser),
            color: self.drawing.color,
            eraser,
            alpha_locked: self.focus.alpha_locked,
            selection: self.selection,
        };
        self.start_stroke(start);
        report.record_brush_begin(used_size, used_color);
        Some(start)
    }

    fn start_stroke(&mut self, start: StrokeStart<P>)
        requires
            old(self).active is None,
        ensures
            final(self)@ == old(self)@.starting_stroke(start),
    {
        let gpu_op_start: usize = self.gpu_ops.len();
        self.count.next_generation = self.count.next_generation.saturating_add(1);
        self.gpu_ops.push(
            GpuStrokeOp::Replace {
                generation: start.generation,
                layer: start.layer,
                color: start.color,
                eraser: start.eraser,
                alpha_locked: start.alpha_locked,
            },
        );
        assert(self@.gpu_ops =~= old(self)@.starting_stroke(start).gpu_ops);
        let mut samples: Vec<StylusSample<P>> = Vec::new();
        samples.push(start.sample);
        assert(samples@ =~= seq![start.sample]);
        self.active = Some(
            LiveStroke {
                generation: start.generation,
                layer: start.layer,
                gpu_op_start,
                samples,
                sample_limit: self.limits.samples_per_stroke,
                sample_limit_exceeded: false,
                brush: start.brush,
                color: start.color,
                eraser: start.eraser,
                alpha_locked: start.alpha_locked,
                selection: start.selection,
            },
        );
    }

    /// Records a later sample of the stroke in progress and returns it as it
    /// was recorded, for the brush engine. Without a stroke there is nothing
    /// to extend.
    pub fn brush_extend(&mut self, sample: StylusSample<P>) -> (r: Option<StylusSample<P>>)
        requires
            old(self)@.wf(),
        ensures
            final(self)@ == old(self)@.extending(sample),
            final(self)@.wf(),
            match old(self)@.active {
                Some(active) => r == Some(active.recorded(sample)),
                None => r is None,
            },
    {
        match self.active.take() {
            Some(mut active) => {
                let recorded = StylusSample { eraser: active.eraser, ..sample };
                active.retain_sample(recorded);
                self.active = Some(active);
                Some(recorded)
            },
            None => None,
        }
    }

    /// Takes what the brush engine made of the extended stroke. A stroke whose
    /// dabs ran out of budget is cancelled, not cut short.
    pub fn brush_extended(&mut self, discontinuous: bool, dabs: Vec<D>)
        requires
            old(self)@.wf(),
        ensures
            final(self)@.wf(),
            old(self)@.active is None ==> final(self)@ == old(self)@,
            old(self)@.active is Some && discontinuous ==> final(self)@ == old(
                self,
            )@.discontinued(Notice::InputGapTooLarge),
            old(self)@.active is Some && !discontinuous ==> final(self)@ == old(
                self,
            )@.drawing_dabs(dabs@),
    {
        let mut dabs = dabs;
        let generation: u64 = match &self.active {
            Some(active) => active.generation,
            None => {
                return ;
            },
        };
        if discontinuous {
            self.cancel_native_brush_discontinuity(Notice::InputGapTooLarge);
        } else {
            append_gpu_dabs(&mut self.gpu_ops, generation, &mut dabs);
        }
    }

    /// The first dabs of a stroke that was just accepted.
    pub fn brush_started(&mut self, dabs: Vec<D>)
        requires
            old(self)@.wf(),
        ensures
            final(self)@.wf(),
            final(self)@ == old(self)@.drawing_dabs(dabs@),
    {
        let mut dabs = dabs;
        if let Some(active) = &self.active {
            append_gpu_dabs(&mut self.gpu_ops, active.generation, &mut dabs);
        }
    }

    /// Closes the stroke in progress. A stroke that outgrew its recording is
    /// cancelled on the display and makes no request.
    pub fn brush_close(&mut self, end_timestamp_ns: u64, dabs: Vec<D>, record: A) -> (r: Option<
        ClosedStrokeRequest<P, A>,
    >)
        requires
            old(self)@.wf(),
        ensures
            final(self)@.wf(),
            final(self)@ == old(self)@.closing(dabs@),
            request_view(r) == (match old(self)@.active {
                Some(active) => if active.sample_limit_exceeded {
                    None
                } else {
                    Some(active.closed(final(self)@.count.closed, end_timestamp_ns, record))
                },
                None => None,
            }),
            r is Some ==> final(self)@.backlog.len() < final(self)@.limits.backlog,
    {
        let mut dabs = dabs;
        let active = match self.active.take() {
            Some(active) => active,
            None => {
                return None;
            },
        };
        append_gpu_dabs(&mut self.gpu_ops, active.generation, &mut dabs);
        self.count.closed = self.count.closed.saturating_add(1);
        self.count.last_closed_layer = Some(active.layer);
        let disposition = if active.sample_limit_exceeded {
            LiveStrokeDisposition::Cancel
        } else {
            LiveStrokeDisposition::Commit
        };
        let ghost drawn = crate::stroke::gpu_view(self.gpu_ops@);
        self.gpu_ops.push(GpuStrokeOp::Finish { generation: active.generation, disposition });
        assert(self@.gpu_ops =~= drawn.push(
            GpuOp::Finish { generation: active.generation, disposition },
        ));
        if active.sample_limit_exceeded {
            return None;
        }
        Some(
            ClosedStrokeRequest {
                ordinal: self.count.closed,
                stroke_generation: active.generation,
                layer: active.layer,
                samples: active.samples,
                brush: active.brush,
                color: active.color,
                alpha_locked: active.alpha_locked,
                selection: active.selection,
                end_timestamp_ns,
                record,
            },
        )
    }

    /// A brush `Cancel`: the stroke in progress is dropped.
    pub fn brush_cancel(&mut self)
        ensures
            final(self)@ == old(self)@.dropping_active(false),
    {
        self.drop_active(false);
    }
}

} // verus!
