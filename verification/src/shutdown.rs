//! The shutdown of the pipeline: everything received is handed to the writer.
//!
//! The host waits for the writer here; that is confined to closing.
use vstd::prelude::*;

use crate::input::StylusSample;
use crate::stroke::ClosedStrokeRequest;
use crate::stroke_pipeline::{PipelineState, StrokeCount, StrokePipeline};

verus! {

/// How far the shutdown has come.
#[derive(Clone, Copy, Debug, PartialEq, Eq, Structural)]
pub enum ShutdownStage {
    Begin,
    RetireDisplay,
    FlushBacklog,
    Drain,
    FlushDrained,
    Seal,
    SendSealed,
    Done,
}

pub enum ShutdownEvent<A> {
    Start,
    /// The display asks for no more updates.
    DisplayRetired,
    /// Whether the writer took the stroke.
    Enqueued(bool),
    /// What was still in the input queue is through.
    Drained,
    /// What the brush engine recorded of the sealed stroke.
    Recorded(A),
}

pub enum ShutdownAction<P, A> {
    RetireDisplay,
    /// Hand the stroke to the writer, waiting for a place.
    Enqueue(ClosedStrokeRequest<P, A>),
    Drain,
    /// End the stroke in the brush engine with this synthetic sample.
    EndStroke(StylusSample<P>),
    Done,
}

/// The oldest waiting stroke goes to the writer, while there is one.
pub open spec fn flushes<P, D, A>(
    before: PipelineState<P, D, A>,
    after: PipelineState<P, D, A>,
    action: ShutdownAction<P, A>,
) -> bool {
    let (rest, oldest) = crate::closed_queue::offered(before.backlog);
    &&& after == before.with_backlog(rest)
    &&& oldest matches Some(request) && (action matches ShutdownAction::Enqueue(given) && given@
        == request)
}

/// The stroke in progress is sealed where it is healthy.
pub open spec fn seals_stroke<P, D, A>(
    before: PipelineState<P, D, A>,
    after: PipelineState<P, D, A>,
    stage: ShutdownStage,
    action: ShutdownAction<P, A>,
) -> bool {
    &&& after == before.sealing()
    &&& if before.seals() {
        &&& stage is Seal
        &&& action == ShutdownAction::<P, A>::EndStroke(before.active->0.sealing_end())
    } else {
        stage is Done && action is Done
    }
}

/// The first flush, and after it the drain.
pub open spec fn flushes_backlog<P, D, A>(
    before: PipelineState<P, D, A>,
    after: PipelineState<P, D, A>,
    stage: ShutdownStage,
    action: ShutdownAction<P, A>,
) -> bool {
    if before.backlog.len() > 0 {
        stage is FlushBacklog && flushes(before, after, action)
    } else {
        stage is Drain && after == before && action is Drain
    }
}

/// The second flush, and after it the stroke in progress.
pub open spec fn flushes_drained<P, D, A>(
    before: PipelineState<P, D, A>,
    after: PipelineState<P, D, A>,
    stage: ShutdownStage,
    action: ShutdownAction<P, A>,
) -> bool {
    if before.backlog.len() > 0 {
        stage is FlushDrained && flushes(before, after, action)
    } else {
        seals_stroke(before, after, stage, action)
    }
}

/// The sealed stroke becomes a request.
pub open spec fn sends_sealed<P, D, A>(
    before: PipelineState<P, D, A>,
    record: A,
    after: PipelineState<P, D, A>,
    stage: ShutdownStage,
    action: ShutdownAction<P, A>,
) -> bool {
    match before.active {
        Some(active) => {
            &&& after == (PipelineState {
                active: None,
                count: StrokeCount {
                    closed: crate::stroke_pipeline::saturating_next(before.count.closed),
                    ..before.count
                },
                ..before
            })
            &&& stage is SendSealed
            &&& action matches ShutdownAction::Enqueue(given) && given@ == active.closed(
                after.count.closed,
                active.samples.last().timestamp_ns,
                record,
            )
        },
        None => after == before && stage is Done && action is Done,
    }
}

/// One step of the shutdown. A writer that is gone ends its flush early; an
/// event that nobody waits for changes nothing.
pub open spec fn shuts_down<P, D, A>(
    before: PipelineState<P, D, A>,
    stage: ShutdownStage,
    event: ShutdownEvent<A>,
    after: PipelineState<P, D, A>,
    next: ShutdownStage,
    action: ShutdownAction<P, A>,
) -> bool {
    match (stage, event) {
        (ShutdownStage::Begin, ShutdownEvent::Start) => {
            &&& after == (PipelineState { shutdown_prepared: true, ..before })
            &&& if before.shutdown_prepared {
                next is Done && action is Done
            } else {
                next is RetireDisplay && action is RetireDisplay
            }
        },
        (ShutdownStage::RetireDisplay, ShutdownEvent::DisplayRetired) => flushes_backlog(
            before,
            after,
            next,
            action,
        ),
        (ShutdownStage::FlushBacklog, ShutdownEvent::Enqueued(taken)) => if taken {
            flushes_backlog(before, after, next, action)
        } else {
            next is Drain && after == before && action is Drain
        },
        (ShutdownStage::Drain, ShutdownEvent::Drained) => flushes_drained(
            before,
            after,
            next,
            action,
        ),
        (ShutdownStage::FlushDrained, ShutdownEvent::Enqueued(taken)) => if taken {
            flushes_drained(before, after, next, action)
        } else {
            seals_stroke(before, after, next, action)
        },
        (ShutdownStage::Seal, ShutdownEvent::Recorded(record)) => sends_sealed(
            before,
            record,
            after,
            next,
            action,
        ),
        (ShutdownStage::SendSealed, ShutdownEvent::Enqueued(taken)) => {
            &&& after == if taken {
                before
            } else {
                before.seal_lost()
            }
            &&& next is Done
            &&& action is Done
        },
        _ => after == before && next == stage && action is Done,
    }
}

impl<P: Copy, D, A> StrokePipeline<P, D, A> {
    fn shutdown_flush(&mut self, stage: &mut ShutdownStage) -> (r: ShutdownAction<P, A>)
        requires
            old(self)@.wf(),
        ensures
            final(self)@.wf(),
            flushes_backlog(old(self)@, final(self)@, *final(stage), r),
    {
        match self.flush_pending_materializations() {
            Some(request) => {
                *stage = ShutdownStage::FlushBacklog;
                ShutdownAction::Enqueue(request)
            },
            None => {
                *stage = ShutdownStage::Drain;
                ShutdownAction::Drain
            },
        }
    }

    fn shutdown_seal(&mut self, stage: &mut ShutdownStage) -> (r: ShutdownAction<P, A>)
        requires
            old(self)@.wf(),
        ensures
            final(self)@.wf(),
            seals_stroke(old(self)@, final(self)@, *final(stage), r),
    {
        match self.seal_active_for_shutdown() {
            Some(end) => {
                *stage = ShutdownStage::Seal;
                ShutdownAction::EndStroke(end)
            },
            None => {
                *stage = ShutdownStage::Done;
                ShutdownAction::Done
            },
        }
    }

    fn shutdown_flush_drained(&mut self, stage: &mut ShutdownStage) -> (r: ShutdownAction<P, A>)
        requires
            old(self)@.wf(),
        ensures
            final(self)@.wf(),
            flushes_drained(old(self)@, final(self)@, *final(stage), r),
    {
        match self.flush_pending_materializations() {
            Some(request) => {
                *stage = ShutdownStage::FlushDrained;
                ShutdownAction::Enqueue(request)
            },
            None => self.shutdown_seal(stage),
        }
    }

    /// One step of the shutdown. The host starts with
    /// [`ShutdownEvent::Start`], performs each action and reports back until
    /// the shutdown is done.
    pub fn prepare_shutdown(&mut self, stage: &mut ShutdownStage, event: ShutdownEvent<A>) -> (r:
        ShutdownAction<P, A>)
        requires
            old(self)@.wf(),
        ensures
            final(self)@.wf(),
            shuts_down(old(self)@, *old(stage), event, final(self)@, *final(stage), r),
    {
        match (*stage, event) {
            (ShutdownStage::Begin, ShutdownEvent::Start) => {
                if self.begin_shutdown() {
                    *stage = ShutdownStage::RetireDisplay;
                    ShutdownAction::RetireDisplay
                } else {
                    *stage = ShutdownStage::Done;
                    ShutdownAction::Done
                }
            },
            (ShutdownStage::RetireDisplay, ShutdownEvent::DisplayRetired) => self.shutdown_flush(
                stage,
            ),
            (ShutdownStage::FlushBacklog, ShutdownEvent::Enqueued(taken)) => {
                if taken {
                    self.shutdown_flush(stage)
                } else {
                    *stage = ShutdownStage::Drain;
                    ShutdownAction::Drain
                }
            },
            (ShutdownStage::Drain, ShutdownEvent::Drained) => self.shutdown_flush_drained(stage),
            (ShutdownStage::FlushDrained, ShutdownEvent::Enqueued(taken)) => {
                if taken {
                    self.shutdown_flush_drained(stage)
                } else {
                    self.shutdown_seal(stage)
                }
            },
            (ShutdownStage::Seal, ShutdownEvent::Recorded(record)) => match self.sealed_request(
                record,
            ) {
                Some(request) => {
                    *stage = ShutdownStage::SendSealed;
                    ShutdownAction::Enqueue(request)
                },
                None => {
                    *stage = ShutdownStage::Done;
                    ShutdownAction::Done
                },
            },
            (ShutdownStage::SendSealed, ShutdownEvent::Enqueued(taken)) => {
                if !taken {
                    self.seal_rejected();
                }
                *stage = ShutdownStage::Done;
                ShutdownAction::Done
            },
            _ => ShutdownAction::Done,
        }
    }
}

/// Where a stage stands in the order of the shutdown.
pub open spec fn shutdown_rank(stage: ShutdownStage) -> int {
    match stage {
        ShutdownStage::Begin => 0,
        ShutdownStage::RetireDisplay => 1,
        ShutdownStage::FlushBacklog => 2,
        ShutdownStage::Drain => 3,
        ShutdownStage::FlushDrained => 4,
        ShutdownStage::Seal => 5,
        ShutdownStage::SendSealed => 6,
        ShutdownStage::Done => 7,
    }
}

/// The display is retired before anything waits for the writer, older strokes
/// go before younger ones, and the stroke in progress goes last.
pub proof fn shutdown_moves_forward<P, D, A>(
    before: PipelineState<P, D, A>,
    stage: ShutdownStage,
    event: ShutdownEvent<A>,
    after: PipelineState<P, D, A>,
    next: ShutdownStage,
    action: ShutdownAction<P, A>,
)
    requires
        shuts_down(before, stage, event, after, next, action),
    ensures
        shutdown_rank(stage) <= shutdown_rank(next),
        action is Enqueue ==> shutdown_rank(next) > shutdown_rank(ShutdownStage::RetireDisplay),
        action is EndStroke && stage is Drain ==> before.backlog.len() == 0,
{
}

/// A writer that takes every stroke gets all that waited, in order: what is
/// handed over followed by what still waits is what waited before.
pub proof fn shutdown_keeps_every_stroke<P, D, A>(
    before: PipelineState<P, D, A>,
    stage: ShutdownStage,
    event: ShutdownEvent<A>,
    after: PipelineState<P, D, A>,
    next: ShutdownStage,
    action: ShutdownAction<P, A>,
)
    requires
        shuts_down(before, stage, event, after, next, action),
        !(stage is Seal),
    ensures
        match action {
            ShutdownAction::Enqueue(request) => seq![request@] + after.backlog == before.backlog,
            _ => after.backlog == before.backlog,
        },
{
    if before.backlog.len() > 0 {
        assert(seq![before.backlog.first()] + before.backlog.drop_first() =~= before.backlog);
    }
}

/// Closing twice hands nothing over twice.
pub proof fn shutdowns_happen_once<P, D, A>(
    before: PipelineState<P, D, A>,
    after: PipelineState<P, D, A>,
    next: ShutdownStage,
    action: ShutdownAction<P, A>,
)
    requires
        before.shutdown_prepared,
        shuts_down(before, ShutdownStage::Begin, ShutdownEvent::Start, after, next, action),
    ensures
        after == before,
        action is Done,
{
}

} // verus!
