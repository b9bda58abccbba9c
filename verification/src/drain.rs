//! The drain: one pass over the admitted samples, sample by sample.
//!
//! The host owns the input queue, the gesture recogniser, the smoother, the
//! brush engine and the writer's lane. It hands in what they said and performs
//! the action that comes back; the order of the steps is decided here.
use vstd::prelude::*;

use crate::brush_step::{SmoothingPlan, StrokeStart};
use crate::closed_queue::WriterReply;
use crate::document::PixelPoint;
use crate::drawing::{DrawingTool, EditSettings};
use crate::edit::{EditCommand, GestureError};
use crate::input::{AdmittedSample, PointerPhase, StylusSample};
use crate::stroke::ClosedStrokeRequest;
use crate::stroke_pipeline::{PipelineState, SampleRoute, StrokePipeline};
use crate::transform_runtime::DragGeometry;
use crate::usage::StrokeDrain;

verus! {

/// What the drain waits for.
#[derive(Clone, Copy, Debug, PartialEq, Eq)]
pub enum Awaited {
    Start,
    Sample,
    GestureBegin { settings: EditSettings, temporary: bool },
    GestureMove,
    GestureEnd,
    TransformBegin,
    TransformDrag,
    Smoothing,
    FirstDabs,
    MoveDabs,
    EndDabs,
    Record,
    Reply,
    Nothing,
}

/// The sample in hand, as it was admitted and as the smoother corrected it.
#[derive(Clone, Copy, Debug, PartialEq, Eq)]
pub struct SampleInHand<P> {
    pub admitted: AdmittedSample<P>,
    pub corrected: StylusSample<P>,
}

#[derive(Clone, Copy, Debug, PartialEq, Eq)]
pub struct DrainCursor<P> {
    pub awaited: Awaited,
    pub hand: Option<SampleInHand<P>>,
}

/// What the host has learned.
pub enum DrainEvent<P, D, A> {
    /// So many samples were taken from the queue.
    Drained(usize),
    Sample(AdmittedSample<P>),
    /// All samples are through; whether the queue had lost any.
    NoMoreSamples { discontinuity: bool },
    /// The gesture took the sample and reads this pixel, where it picks.
    GestureAt(Option<PixelPoint>),
    GestureFinished(Result<EditCommand, GestureError>),
    /// Where the sample meets the transform's outline.
    Geometry { edit_busy: bool, geometry: DragGeometry },
    /// The corrected sample, where its position is valid.
    Smoothed(Option<StylusSample<P>>),
    /// What the brush engine drew for the sample.
    Dabs { discontinuous: bool, dabs: Vec<D> },
    /// What the brush engine drew and recorded at the end.
    Recorded { dabs: Vec<D>, record: A },
    Replied(WriterReply<P, A>),
}

/// What the host does next.
pub enum DrainAction<P, A> {
    TakeSample,
    BeginGesture { tool: DrawingTool, settings: EditSettings, sample: StylusSample<P> },
    MoveGesture(StylusSample<P>),
    FinishGesture(StylusSample<P>),
    AskGeometry(StylusSample<P>),
    Smooth(SmoothingPlan, StylusSample<P>),
    StartStroke(StrokeStart<P>),
    ExtendStroke(StylusSample<P>),
    EndStroke,
    Offer(ClosedStrokeRequest<P, A>),
    Done,
}

pub open spec fn waiting<P>() -> DrainCursor<P> {
    DrainCursor { awaited: Awaited::Sample, hand: None }
}

pub open spec fn holding<P>(awaited: Awaited, admitted: AdmittedSample<P>) -> DrainCursor<P> {
    DrainCursor {
        awaited,
        hand: Some(SampleInHand { admitted, corrected: admitted.sample }),
    }
}

pub open spec fn corrected_to<P>(
    awaited: Awaited,
    admitted: AdmittedSample<P>,
    corrected: StylusSample<P>,
) -> DrainCursor<P> {
    DrainCursor { awaited, hand: Some(SampleInHand { admitted, corrected }) }
}

/// A stroke is offered to the writer only while nothing else is in progress or
/// waits.
pub open spec fn in_step<P, D, A>(state: PipelineState<P, D, A>, cursor: DrainCursor<P>) -> bool {
    &&& state.wf()
    &&& cursor.awaited is Reply ==> {
        &&& state.active is None
        &&& state.backlog.len() < state.limits.backlog
    }
}

/// After routing: what is asked of the host for each route.
pub open spec fn after_route<P, D, A>(
    state: PipelineState<P, D, A>,
    route: SampleRoute,
    admitted: AdmittedSample<P>,
    cursor: DrainCursor<P>,
    action: DrainAction<P, A>,
) -> bool {
    let sample = admitted.sample;
    match route {
        SampleRoute::Consumed => cursor == waiting::<P>() && action is TakeSample,
        SampleRoute::ObserveTransform => {
            &&& cursor == holding(Awaited::TransformDrag, admitted)
            &&& action == DrainAction::<P, A>::AskGeometry(sample)
        },
        SampleRoute::BeginTransform => {
            &&& cursor == holding(Awaited::TransformBegin, admitted)
            &&& action == DrainAction::<P, A>::AskGeometry(sample)
        },
        SampleRoute::BeginEdit { tool, settings, temporary } => {
            &&& cursor == holding(Awaited::GestureBegin { settings, temporary }, admitted)
            &&& action == (DrainAction::<P, A>::BeginGesture { tool, settings, sample })
        },
        SampleRoute::MoveEdit => {
            &&& cursor == holding(Awaited::GestureMove, admitted)
            &&& action == DrainAction::<P, A>::MoveGesture(sample)
        },
        SampleRoute::FinishEdit => {
            &&& cursor == holding(Awaited::GestureEnd, admitted)
            &&& action == DrainAction::<P, A>::FinishGesture(sample)
        },
        SampleRoute::Brush => {
            &&& cursor == holding(Awaited::Smoothing, admitted)
            &&& action == DrainAction::<P, A>::Smooth(state.smoothing_plan(sample), sample)
        },
    }
}

/// The report of an accepted `Begin`; a refused one leaves it alone.
pub open spec fn begin_reported<P, D, A>(
    state: PipelineState<P, D, A>,
    sample: StylusSample<P>,
    accepted: bool,
    before: StrokeDrain,
    after: StrokeDrain,
) -> bool {
    if accepted {
        &&& after.samples == before.samples
        &&& after.artwork_closed == before.artwork_closed
        &&& after.started_brush_sizes@ == crate::usage::promoted(
            before.started_brush_sizes@,
            state.used_size(sample),
        )
        &&& match state.used_color(sample) {
            Some(color) => after.started_brush_colors@ == crate::usage::promoted(
                before.started_brush_colors@,
                color,
            ),
            None => after.started_brush_colors == before.started_brush_colors,
        }
    } else {
        after == before
    }
}

/// A corrected brush sample, by its phase.
pub open spec fn brush_sampled<P, D, A>(
    before: PipelineState<P, D, A>,
    admitted: AdmittedSample<P>,
    sample: StylusSample<P>,
    report: StrokeDrain,
    after: PipelineState<P, D, A>,
    cursor: DrainCursor<P>,
    reported: StrokeDrain,
    action: DrainAction<P, A>,
) -> bool {
    match sample.phase {
        PointerPhase::Begin => {
            let (begun, start) = before.brush_begun(sample, admitted.begin_layer);
            &&& after == begun
            &&& begin_reported(before, sample, start is Some, report, reported)
            &&& match start {
                Some(start) => {
                    &&& cursor == corrected_to(Awaited::FirstDabs, admitted, sample)
                    &&& action == DrainAction::<P, A>::StartStroke(start)
                },
                None => cursor == waiting::<P>() && action is TakeSample,
            }
        },
        PointerPhase::Move | PointerPhase::End => {
            &&& after == before.extending(sample)
            &&& reported == report
            &&& match before.active {
                Some(active) => {
                    &&& cursor == corrected_to(
                        if sample.phase is End {
                            Awaited::EndDabs
                        } else {
                            Awaited::MoveDabs
                        },
                        admitted,
                        sample,
                    )
                    &&& action == DrainAction::<P, A>::ExtendStroke(active.recorded(sample))
                },
                None => cursor == waiting::<P>() && action is TakeSample,
            }
        },
        PointerPhase::Cancel => {
            &&& after == before.dropping_active(false)
            &&& reported == report
            &&& cursor == waiting::<P>()
            &&& action is TakeSample
        },
    }
}

/// The end of a stroke: what is committed is offered to the writer, or waits
/// behind the older backlog.
pub open spec fn stroke_recorded<P, D, A>(
    before: PipelineState<P, D, A>,
    end: StylusSample<P>,
    dabs: Seq<D>,
    record: A,
    report: StrokeDrain,
    after: PipelineState<P, D, A>,
    cursor: DrainCursor<P>,
    reported: StrokeDrain,
    action: DrainAction<P, A>,
) -> bool {
    let closed = before.closing(dabs);
    let commits = before.active matches Some(active) && !active.sample_limit_exceeded;
    if commits {
        let request = before.active->0.closed(closed.count.closed, end.timestamp_ns, record);
        let (backlog, offered) = crate::closed_queue::queued(closed.backlog, request);
        &&& after == closed.with_backlog(backlog)
        &&& reported == (StrokeDrain { artwork_closed: true, ..report })
        &&& match offered {
            Some(_) => {
                &&& cursor == (DrainCursor::<P> { awaited: Awaited::Reply, hand: None })
                &&& action matches DrainAction::Offer(given) && given@ == request
            },
            None => cursor == waiting::<P>() && action is TakeSample,
        }
    } else {
        &&& after == closed
        &&& reported == report
        &&& cursor == waiting::<P>()
        &&& action is TakeSample
    }
}

/// The dabs of a sample that extended the stroke.
pub open spec fn stroke_extended<P, D, A>(
    before: PipelineState<P, D, A>,
    discontinuous: bool,
    dabs: Seq<D>,
) -> PipelineState<P, D, A> {
    if before.active is None {
        before
    } else if discontinuous {
        before.discontinued(crate::effect::Notice::InputGapTooLarge)
    } else {
        before.drawing_dabs(dabs)
    }
}

/// The gesture's first pixel opens a pick.
pub open spec fn pick_opened<P, D, A>(
    before: PipelineState<P, D, A>,
    admitted: AdmittedSample<P>,
    settings: EditSettings,
    temporary: bool,
    point: Option<PixelPoint>,
) -> PipelineState<P, D, A> {
    match point {
        Some(point) => before.picking(
            admitted.sample,
            point,
            admitted.picker_epoch,
            settings,
            temporary,
        ),
        None => before,
    }
}

/// One step of the drain. An answer that nobody waits for changes nothing.
pub open spec fn drains<P, D, A>(
    before: PipelineState<P, D, A>,
    cursor: DrainCursor<P>,
    event: DrainEvent<P, D, A>,
    report: StrokeDrain,
    after: PipelineState<P, D, A>,
    next: DrainCursor<P>,
    reported: StrokeDrain,
    action: DrainAction<P, A>,
) -> bool {
    match (cursor.awaited, cursor.hand, event) {
        (Awaited::Start, _, DrainEvent::Drained(samples)) => {
            &&& after == before
            &&& reported == (StrokeDrain { samples, ..report })
            &&& if before.recovery.fatal {
                &&& next == (DrainCursor::<P> { awaited: Awaited::Nothing, hand: None })
                &&& action is Done
            } else {
                next == waiting::<P>() && action is TakeSample
            }
        },
        (Awaited::Sample, _, DrainEvent::Sample(admitted)) => {
            let (state, route) = before.routed(admitted);
            &&& after == state
            &&& reported == report
            &&& after_route(state, route, admitted, next, action)
        },
        (Awaited::Sample, _, DrainEvent::NoMoreSamples { discontinuity }) => {
            &&& after == if discontinuity {
                before.interrupted()
            } else {
                before
            }
            &&& reported == report
            &&& next == (DrainCursor::<P> { awaited: Awaited::Nothing, hand: None })
            &&& action is Done
        },
        (
            Awaited::GestureBegin { settings, temporary },
            Some(hand),
            DrainEvent::GestureAt(point),
        ) => {
            &&& after == pick_opened(before, hand.admitted, settings, temporary, point)
            &&& reported == report
            &&& next == waiting::<P>()
            &&& action is TakeSample
        },
        (Awaited::GestureMove, _, DrainEvent::GestureAt(point)) => {
            &&& after == before.pick_moved(point)
            &&& reported == report
            &&& next == waiting::<P>()
            &&& action is TakeSample
        },
        (Awaited::GestureEnd, _, DrainEvent::GestureFinished(result)) => {
            &&& after == before.edit_finished(result)
            &&& reported == report
            &&& next == waiting::<P>()
            &&& action is TakeSample
        },
        (
            Awaited::TransformBegin,
            Some(hand),
            DrainEvent::Geometry { edit_busy, geometry },
        ) => {
            &&& after == before.native_transform_begun(hand.admitted.sample, geometry.hit)
            &&& reported == report
            &&& next == waiting::<P>()
            &&& action is TakeSample
        },
        (
            Awaited::TransformDrag,
            Some(hand),
            DrainEvent::Geometry { edit_busy, geometry },
        ) => {
            &&& after == before.transform_observed(hand.admitted.sample, edit_busy, geometry)
            &&& reported == report
            &&& next == waiting::<P>()
            &&& action is TakeSample
        },
        (Awaited::Smoothing, Some(hand), DrainEvent::Smoothed(corrected)) => match corrected {
            Some(sample) => brush_sampled(
                before,
                hand.admitted,
                sample,
                report,
                after,
                next,
                reported,
                action,
            ),
            None => {
                &&& after == before.discontinued(crate::effect::Notice::InvalidPosition)
                &&& reported == report
                &&& next == waiting::<P>()
                &&& action is TakeSample
            },
        },
        (Awaited::FirstDabs, _, DrainEvent::Dabs { discontinuous, dabs }) => {
            &&& after == before.drawing_dabs(dabs@)
            &&& reported == report
            &&& next == waiting::<P>()
            &&& action is TakeSample
        },
        (Awaited::MoveDabs, _, DrainEvent::Dabs { discontinuous, dabs }) => {
            &&& after == stroke_extended(before, discontinuous, dabs@)
            &&& reported == report
            &&& next == waiting::<P>()
            &&& action is TakeSample
        },
        (Awaited::EndDabs, Some(hand), DrainEvent::Dabs { discontinuous, dabs }) => {
            &&& after == stroke_extended(before, discontinuous, dabs@)
            &&& reported == report
            &&& if discontinuous {
                next == waiting::<P>() && action is TakeSample
            } else {
                &&& next == (DrainCursor::<P> { awaited: Awaited::Record, hand: Some(hand) })
                &&& action is EndStroke
            }
        },
        (Awaited::Record, Some(hand), DrainEvent::Recorded { dabs, record }) => stroke_recorded(
            before,
            hand.corrected,
            dabs@,
            record,
            report,
            after,
            next,
            reported,
            action,
        ),
        (Awaited::Reply, _, DrainEvent::Replied(reply)) => {
            &&& after == before.replied(reply)
            &&& reported == report
            &&& next == waiting::<P>()
            &&& action is TakeSample
        },
        _ => {
            &&& after == before
            &&& reported == report
            &&& next == cursor
            &&& action is Done
        },
    }
}

/// Nothing but the end of a committed stroke, and the writer's answer to it,
/// adds to what is saved.
pub proof fn only_ended_strokes_are_saved<P, D, A>(
    before: PipelineState<P, D, A>,
    cursor: DrainCursor<P>,
    event: DrainEvent<P, D, A>,
    report: StrokeDrain,
    after: PipelineState<P, D, A>,
    next: DrainCursor<P>,
    reported: StrokeDrain,
    action: DrainAction<P, A>,
)
    requires
        drains(before, cursor, event, report, after, next, reported, action),
        !(event is Recorded),
        !(event is Replied),
    ensures
        after.backlog == before.backlog,
        after.count.closed == before.count.closed,
        reported.artwork_closed == report.artwork_closed,
        !(action is Offer),
{
    if let DrainEvent::Sample(admitted) = event {
        crate::pipeline_laws::routing_saves_nothing(before, admitted);
    }
}

/// A failed workspace takes no sample of a drain, and forgets none that it
/// counted.
pub proof fn failed_workspaces_take_no_sample<P, D, A>(
    before: PipelineState<P, D, A>,
    samples: usize,
    report: StrokeDrain,
    after: PipelineState<P, D, A>,
    next: DrainCursor<P>,
    reported: StrokeDrain,
    action: DrainAction<P, A>,
)
    requires
        before.recovery.fatal,
        drains(
            before,
            DrainCursor { awaited: Awaited::Start, hand: None },
            DrainEvent::Drained(samples),
            report,
            after,
            next,
            reported,
            action,
        ),
    ensures
        after == before,
        reported.samples == samples,
        action is Done,
{
}

impl<P: Copy> DrainCursor<P> {
    pub fn new() -> (r: Self)
        ensures
            r == (DrainCursor::<P> { awaited: Awaited::Start, hand: None }),
    {
        DrainCursor { awaited: Awaited::Start, hand: None }
    }

    fn wait(&mut self)
        ensures
            *final(self) == waiting::<P>(),
    {
        self.awaited = Awaited::Sample;
        self.hand = None;
    }

    fn hold(&mut self, awaited: Awaited, admitted: AdmittedSample<P>)
        ensures
            *final(self) == holding(awaited, admitted),
    {
        self.awaited = awaited;
        self.hand = Some(SampleInHand { admitted, corrected: admitted.sample });
    }
}

impl<P: Copy, D, A> StrokePipeline<P, D, A> {
    fn drain_sample(&mut self, cursor: &mut DrainCursor<P>, admitted: AdmittedSample<P>) -> (r:
        DrainAction<P, A>)
        requires
            old(self)@.wf(),
        ensures
            final(self)@ == old(self)@.routed(admitted).0,
            final(self)@.wf(),
            !(final(cursor).awaited is Reply),
            after_route(
                final(self)@,
                old(self)@.routed(admitted).1,
                admitted,
                *final(cursor),
                r,
            ),
    {
        let route = self.route(&admitted);
        match route {
            SampleRoute::Consumed => {
                cursor.wait();
                DrainAction::TakeSample
            },
            SampleRoute::ObserveTransform => {
                cursor.hold(Awaited::TransformDrag, admitted);
                DrainAction::AskGeometry(admitted.sample)
            },
            SampleRoute::BeginTransform => {
                cursor.hold(Awaited::TransformBegin, admitted);
                DrainAction::AskGeometry(admitted.sample)
            },
            SampleRoute::BeginEdit { tool, settings, temporary } => {
                cursor.hold(Awaited::GestureBegin { settings, temporary }, admitted);
                DrainAction::BeginGesture { tool, settings, sample: admitted.sample }
            },
            SampleRoute::MoveEdit => {
                cursor.hold(Awaited::GestureMove, admitted);
                DrainAction::MoveGesture(admitted.sample)
            },
            SampleRoute::FinishEdit => {
                cursor.hold(Awaited::GestureEnd, admitted);
                DrainAction::FinishGesture(admitted.sample)
            },
            SampleRoute::Brush => {
                cursor.hold(Awaited::Smoothing, admitted);
                DrainAction::Smooth(self.plan_smoothing(&admitted.sample), admitted.sample)
            },
        }
    }

    fn drain_brush(
        &mut self,
        cursor: &mut DrainCursor<P>,
        admitted: AdmittedSample<P>,
        sample: StylusSample<P>,
        report: &mut StrokeDrain,
    ) -> (r: DrainAction<P, A>)
        requires
            old(self)@.wf(),
        ensures
            final(self)@.wf(),
            !(final(cursor).awaited is Reply),
            brush_sampled(
                old(self)@,
                admitted,
                sample,
                *old(report),
                final(self)@,
                *final(cursor),
                *final(report),
                r,
            ),
    {
        match sample.phase {
            PointerPhase::Begin => match self.brush_begin(sample, admitted.begin_layer, report) {
                Some(start) => {
                    cursor.awaited = Awaited::FirstDabs;
                    cursor.hand = Some(SampleInHand { admitted, corrected: sample });
                    DrainAction::StartStroke(start)
                },
                None => {
                    cursor.wait();
                    DrainAction::TakeSample
                },
            },
            PointerPhase::Move | PointerPhase::End => match self.brush_extend(sample) {
                Some(recorded) => {
                    cursor.awaited = if sample.phase == PointerPhase::End {
                        Awaited::EndDabs
                    } else {
                        Awaited::MoveDabs
                    };
                    cursor.hand = Some(SampleInHand { admitted, corrected: sample });
                    DrainAction::ExtendStroke(recorded)
                },
                None => {
                    cursor.wait();
                    DrainAction::TakeSample
                },
            },
            PointerPhase::Cancel => {
                self.brush_cancel();
                cursor.wait();
                DrainAction::TakeSample
            },
        }
    }

    fn drain_record(
        &mut self,
        cursor: &mut DrainCursor<P>,
        end: StylusSample<P>,
        dabs: Vec<D>,
        record: A,
        report: &mut StrokeDrain,
    ) -> (r: DrainAction<P, A>)
        requires
            old(self)@.wf(),
        ensures
            in_step(final(self)@, *final(cursor)),
            stroke_recorded(
                old(self)@,
                end,
                dabs@,
                record,
                *old(report),
                final(self)@,
                *final(cursor),
                *final(report),
                r,
            ),
    {
        match self.brush_close(end.timestamp_ns, dabs, record) {
            Some(request) => {
                report.artwork_closed = true;
                match self.queue_closed_stroke(request) {
                    Some(offered) => {
                        cursor.awaited = Awaited::Reply;
                        cursor.hand = None;
                        DrainAction::Offer(offered)
                    },
                    None => {
                        cursor.wait();
                        DrainAction::TakeSample
                    },
                }
            },
            None => {
                cursor.wait();
                DrainAction::TakeSample
            },
        }
    }

    /// One step of the drain. The host starts with [`DrainEvent::Drained`],
    /// performs each action and reports what it learned, until the drain is
    /// done.
    pub fn drain(
        &mut self,
        cursor: &mut DrainCursor<P>,
        event: DrainEvent<P, D, A>,
        report: &mut StrokeDrain,
    ) -> (r: DrainAction<P, A>)
        requires
            in_step(old(self)@, *old(cursor)),
        ensures
            in_step(final(self)@, *final(cursor)),
            drains(
                old(self)@,
                *old(cursor),
                event,
                *old(report),
                final(self)@,
                *final(cursor),
                *final(report),
                r,
            ),
    {
        match (cursor.awaited, cursor.hand, event) {
            (Awaited::Start, _, DrainEvent::Drained(samples)) => {
                report.samples = samples;
                if self.recovery.fatal {
                    cursor.awaited = Awaited::Nothing;
                    cursor.hand = None;
                    DrainAction::Done
                } else {
                    cursor.wait();
                    DrainAction::TakeSample
                }
            },
            (Awaited::Sample, _, DrainEvent::Sample(admitted)) => self.drain_sample(
                cursor,
                admitted,
            ),
            (Awaited::Sample, _, DrainEvent::NoMoreSamples { discontinuity }) => {
                if discontinuity {
                    self.consume_discontinuity();
                }
                cursor.awaited = Awaited::Nothing;
                cursor.hand = None;
                DrainAction::Done
            },
            (
                Awaited::GestureBegin { settings, temporary },
                Some(hand),
                DrainEvent::GestureAt(point),
            ) => {
                if let Some(point) = point {
                    let admitted = hand.admitted;
                    self.begin_picker(
                        &admitted.sample,
                        point,
                        admitted.picker_epoch,
                        settings,
                        temporary,
                    );
                }
                cursor.wait();
                DrainAction::TakeSample
            },
            (Awaited::GestureMove, _, DrainEvent::GestureAt(point)) => {
                self.move_picker(point);
                cursor.wait();
                DrainAction::TakeSample
            },
            (Awaited::GestureEnd, _, DrainEvent::GestureFinished(result)) => {
                self.finish_edit(result);
                cursor.wait();
                DrainAction::TakeSample
            },
            (
                Awaited::TransformBegin,
                Some(hand),
                DrainEvent::Geometry { edit_busy: _, geometry },
            ) => {
                self.begin_native_transform(&hand.admitted.sample, geometry.hit);
                cursor.wait();
                DrainAction::TakeSample
            },
            (
                Awaited::TransformDrag,
                Some(hand),
                DrainEvent::Geometry { edit_busy, geometry },
            ) => {
                self.observe_transform_sample(&hand.admitted.sample, edit_busy, geometry);
                cursor.wait();
                DrainAction::TakeSample
            },
            (Awaited::Smoothing, Some(hand), DrainEvent::Smoothed(corrected)) => match corrected {
                Some(sample) => self.drain_brush(cursor, hand.admitted, sample, report),
                None => {
                    self.cancel_invalid_smoothed_stroke();
                    cursor.wait();
                    DrainAction::TakeSample
                },
            },
            (Awaited::FirstDabs, _, DrainEvent::Dabs { discontinuous: _, dabs }) => {
                self.brush_started(dabs);
                cursor.wait();
                DrainAction::TakeSample
            },
            (Awaited::MoveDabs, _, DrainEvent::Dabs { discontinuous, dabs }) => {
                self.brush_extended(discontinuous, dabs);
                cursor.wait();
                DrainAction::TakeSample
            },
            (Awaited::EndDabs, Some(hand), DrainEvent::Dabs { discontinuous, dabs }) => {
                self.brush_extended(discontinuous, dabs);
                if discontinuous {
                    cursor.wait();
                    DrainAction::TakeSample
                } else {
                    cursor.awaited = Awaited::Record;
                    cursor.hand = Some(hand);
                    DrainAction::EndStroke
                }
            },
            (Awaited::Record, Some(hand), DrainEvent::Recorded { dabs, record }) =>
                self.drain_record(cursor, hand.corrected, dabs, record, report),
            (Awaited::Reply, _, DrainEvent::Replied(reply)) => {
                self.closed_stroke_reply(reply);
                cursor.wait();
                DrainAction::TakeSample
            },
            _ => DrainAction::Done,
        }
    }
}

} // verus!
