//! Closed strokes on their way to the project writer, and the shutdown that
//! hands the last of them over.
use vstd::prelude::*;

use crate::effect::{InkEffect, WorkspaceFailure};
use crate::input::{PointerPhase, StylusSample};
use crate::stroke::{ClosedStroke, ClosedStrokeRequest, OpenStroke};
use crate::stroke_pipeline::{PipelineState, StrokeCount, StrokePipeline};

verus! {

/// The writer's answer to an offered stroke. A refused stroke comes back.
pub enum WriterReply<P, A> {
    Enqueued,
    Full(ClosedStrokeRequest<P, A>),
    Disconnected(ClosedStrokeRequest<P, A>),
}

/// A closed stroke meets the backlog: with older work waiting it waits too,
/// else it is offered at once.
pub open spec fn queued<T>(backlog: Seq<T>, request: T) -> (Seq<T>, Option<T>) {
    if backlog.len() > 0 {
        (backlog.push(request), None)
    } else {
        (backlog, Some(request))
    }
}

/// The oldest waiting stroke is offered.
pub open spec fn offered<T>(backlog: Seq<T>) -> (Seq<T>, Option<T>) {
    if backlog.len() > 0 {
        (backlog.drop_first(), Some(backlog.first()))
    } else {
        (backlog, None)
    }
}

/// A refused stroke waits in front of everything younger.
pub open spec fn taken_back<T>(backlog: Seq<T>, request: T) -> Seq<T> {
    seq![request] + backlog
}

/// What is offered now, then what waits.
pub open spec fn in_order<T>(step: (Seq<T>, Option<T>)) -> Seq<T> {
    match step.1 {
        Some(request) => seq![request] + step.0,
        None => step.0,
    }
}

impl<P, D, A> PipelineState<P, D, A> {
    pub open spec fn with_backlog(self, backlog: Seq<ClosedStroke<P, A>>) -> Self {
        PipelineState { backlog, ..self }
    }

    /// The writer answered a direct offer; what it refused waits.
    pub open spec fn replied(self, reply: WriterReply<P, A>) -> Self {
        match reply {
            WriterReply::Enqueued => self,
            WriterReply::Full(request) | WriterReply::Disconnected(request) => self.with_backlog(
                self.backlog.push(request@),
            ),
        }
    }
}

impl<P: Copy, D, A> StrokePipeline<P, D, A> {
    /// Takes a closed stroke. What is returned has to be offered to the writer
    /// now. The writer may have freed capacity meanwhile; a new stroke still
    /// follows the older backlog.
    pub fn queue_closed_stroke(&mut self, request: ClosedStrokeRequest<P, A>) -> (r: Option<
        ClosedStrokeRequest<P, A>,
    >)
        requires
            old(self)@.wf(),
            old(self)@.active is None,
            old(self)@.backlog.len() < old(self)@.limits.backlog,
        ensures
            final(self)@.wf(),
            final(self)@ == old(self)@.with_backlog(queued(old(self)@.backlog, request@).0),
            crate::brush_step::request_view(r) == queued(old(self)@.backlog, request@).1,
    {
        if self.pending_materializations.len() > 0 {
            self.defer_materialization(request);
            None
        } else {
            Some(request)
        }
    }

    /// Takes the writer's answer to a stroke that was offered directly.
    pub fn closed_stroke_reply(&mut self, reply: WriterReply<P, A>)
        requires
            old(self)@.wf(),
            old(self)@.active is None,
            !(reply is Enqueued) ==> old(self)@.backlog.len() < old(self)@.limits.backlog,
        ensures
            final(self)@.wf(),
            final(self)@ == old(self)@.replied(reply),
    {
        match reply {
            WriterReply::Enqueued => {},
            WriterReply::Full(request) => self.defer_materialization(request),
            WriterReply::Disconnected(request) => self.defer_materialization(request),
        }
    }

    pub fn defer_materialization(&mut self, request: ClosedStrokeRequest<P, A>)
        requires
            old(self)@.wf(),
            old(self)@.active is None,
            old(self)@.backlog.len() < old(self)@.limits.backlog,
        ensures
            final(self)@.wf(),
            final(self)@ == old(self)@.with_backlog(old(self)@.backlog.push(request@)),
    {
        self.pending_materializations.push_back(request);
        assert(self@.backlog =~= old(self)@.backlog.push(request@));
    }

    /// Offers the oldest waiting stroke: the first step of a flush.
    pub fn flush_pending_materializations(&mut self) -> (r: Option<ClosedStrokeRequest<P, A>>)
        requires
            old(self)@.wf(),
        ensures
            final(self)@.wf(),
            final(self)@ == old(self)@.with_backlog(offered(old(self)@.backlog).0),
            crate::brush_step::request_view(r) == offered(old(self)@.backlog).1,
            r is Some ==> final(self)@.backlog.len() < final(self)@.limits.backlog,
            r is Some && final(self)@.active is Some ==> final(self)@.backlog.len() + 1
                < final(self)@.limits.backlog,
    {
        let ghost before = self.pending_materializations@;
        let r = self.pending_materializations.pop_front();
        proof {
            if before.len() > 0 {
                assert(self@.backlog =~= old(self)@.backlog.drop_first());
                assert(old(self)@.backlog.first() == before.first()@);
            } else {
                assert(self@.backlog =~= old(self)@.backlog);
            }
        }
        r
    }

    /// Takes the writer's answer within a flush and offers the next stroke, or
    /// stops at the first refusal.
    pub fn flush_reply(&mut self, reply: WriterReply<P, A>) -> (r: Option<
        ClosedStrokeRequest<P, A>,
    >)
        requires
            old(self)@.wf(),
            !(reply is Enqueued) ==> old(self)@.backlog.len() < old(self)@.limits.backlog,
            !(reply is Enqueued) && old(self)@.active is Some ==> old(self)@.backlog.len() + 1
                < old(self)@.limits.backlog,
        ensures
            final(self)@.wf(),
            match reply {
                WriterReply::Enqueued => {
                    &&& final(self)@ == old(self)@.with_backlog(offered(old(self)@.backlog).0)
                    &&& crate::brush_step::request_view(r) == offered(old(self)@.backlog).1
                },
                WriterReply::Full(request) | WriterReply::Disconnected(request) => {
                    &&& final(self)@ == old(self)@.with_backlog(
                        taken_back(old(self)@.backlog, request@),
                    )
                    &&& r is None
                },
            },
    {
        match reply {
            WriterReply::Enqueued => self.flush_pending_materializations(),
            WriterReply::Full(request) => {
                self.pending_materializations.push_front(request);
                assert(self@.backlog =~= taken_back(old(self)@.backlog, request@));
                None
            },
            WriterReply::Disconnected(request) => {
                self.pending_materializations.push_front(request);
                assert(self@.backlog =~= taken_back(old(self)@.backlog, request@));
                None
            },
        }
    }
}

/// Neither freed writer capacity nor a refusal reorders closed strokes: what is
/// offered followed by what waits is always the order in which they closed.
pub proof fn closed_strokes_keep_their_order<T>(backlog: Seq<T>, request: T)
    ensures
        in_order(queued(backlog, request)) == backlog.push(request),
        in_order(offered(backlog)) == backlog,
        backlog.len() > 0 ==> taken_back(offered(backlog).0, offered(backlog).1->0) == backlog,
{
    assert(in_order(queued(backlog, request)) =~= backlog.push(request));
    assert(in_order(offered(backlog)) =~= backlog);
    if backlog.len() > 0 {
        assert(taken_back(offered(backlog).0, offered(backlog).1->0) =~= backlog);
    }
}

impl<P> OpenStroke<P> {
    /// The synthetic end of a stroke whose owner closes: its last sample again,
    /// one number later.
    pub open spec fn sealing_end(self) -> StylusSample<P> {
        StylusSample {
            sequence: (self.samples.last().sequence + 1) as u64,
            phase: PointerPhase::End,
            ..self.samples.last()
        }
    }

    /// The recording has room for a synthetic end.
    pub open spec fn can_be_sealed(self) -> bool {
        &&& self.samples.last().sequence < u64::MAX
        &&& !self.sample_limit_exceeded
        &&& self.samples.len() < self.sample_limit
    }
}

impl<P, D, A> PipelineState<P, D, A> {
    /// A stroke in progress is healthy enough to be kept on close.
    pub open spec fn seals(self) -> bool {
        &&& !self.recovery.fatal
        &&& !self.recovery.awaiting_clean_begin
        &&& self.active matches Some(active) && active.can_be_sealed()
    }

    /// The sealed stroke did not reach the writer.
    pub open spec fn seal_lost(self) -> Self {
        self.with_effect(
            InkEffect::PublishWorkspaceFailure(WorkspaceFailure::SealWriterStopped),
        )
    }

    pub open spec fn sealing(self) -> Self {
        match self.active {
            None => self,
            Some(active) => if self.recovery.fatal || self.recovery.awaiting_clean_begin {
                PipelineState { active: None, ..self }
            } else if !active.can_be_sealed() {
                PipelineState { active: None, ..self }.with_effect(
                    InkEffect::PublishWorkspaceFailure(WorkspaceFailure::SealLimit),
                )
            } else {
                PipelineState {
                    active: Some(
                        OpenStroke { samples: active.samples.push(active.sealing_end()), ..active },
                    ),
                    ..self
                }
            },
        }
    }
}

impl<P: Copy, D, A> StrokePipeline<P, D, A> {
    /// Whether the shutdown still has to be prepared. It is prepared once.
    pub fn begin_shutdown(&mut self) -> (r: bool)
        ensures
            r == !old(self)@.shutdown_prepared,
            final(self)@ == (PipelineState { shutdown_prepared: true, ..old(self)@ }),
    {
        let first = !self.shutdown_prepared;
        self.shutdown_prepared = true;
        first
    }

    /// Ends a healthy stroke in progress at its last received sample. The
    /// returned end is synthetic: it goes to the brush engine, never to the
    /// input recorder. Any other stroke in progress is dropped.
    pub fn seal_active_for_shutdown(&mut self) -> (r: Option<StylusSample<P>>)
        requires
            old(self)@.wf(),
        ensures
            final(self)@.wf(),
            final(self)@ == old(self)@.sealing(),
            r is Some <==> old(self)@.seals(),
            old(self)@.seals() ==> r == Some(old(self)@.active->0.sealing_end()),
    {
        let mut active = match self.active.take() {
            Some(active) => active,
            None => {
                return None;
            },
        };
        if self.recovery.fatal || self.recovery.awaiting_clean_begin {
            return None;
        }
        let last = active.samples[active.samples.len() - 1];
        let sequence: u64 = match last.sequence.checked_add(1) {
            Some(sequence) if !active.sample_limit_exceeded && active.samples.len()
                < active.sample_limit => sequence,
            _ => {
                self.effects.push(
                    InkEffect::PublishWorkspaceFailure(WorkspaceFailure::SealLimit),
                );
                return None;
            },
        };
        let end = StylusSample { sequence, phase: PointerPhase::End, ..last };
        active.samples.push(end);
        self.active = Some(active);
        Some(end)
    }

    /// The request of the sealed stroke, with what the brush engine recorded.
    pub fn sealed_request(&mut self, record: A) -> (r: Option<ClosedStrokeRequest<P, A>>)
        requires
            old(self)@.wf(),
        ensures
            final(self)@.wf(),
            match old(self)@.active {
                Some(active) => {
                    &&& final(self)@ == (PipelineState {
                        active: None,
                        count: StrokeCount {
                            closed: crate::stroke_pipeline::saturating_next(
                                old(self)@.count.closed,
                            ),
                            ..old(self)@.count
                        },
                        ..old(self)@
                    })
                    &&& crate::brush_step::request_view(r) == Some(
                        active.closed(
                            final(self)@.count.closed,
                            active.samples.last().timestamp_ns,
                            record,
                        ),
                    )
                },
                None => r is None && final(self)@ == old(self)@,
            },
    {
        let active = match self.active.take() {
            Some(active) => active,
            None => {
                return None;
            },
        };
        self.count.closed = self.count.closed.saturating_add(1);
        let end_timestamp_ns: u64 = active.samples[active.samples.len() - 1].timestamp_ns;
        Some(
            ClosedStrokeRequest {
                ordinal: self.count.closed,
                stroke_generation: active.generation,
                layer: active.layer,
                samples: active.samples,
                brush: active.brush,
                color: active.color,
                alpha_locked: active.alpha_locked,
                selection: active.selection,
                end_timestamp_ns,
                record,
            },
        )
    }

    /// The writer stopped before the sealed stroke reached it.
    pub fn seal_rejected(&mut self)
        ensures
            final(self)@ == old(self)@.seal_lost(),
    {
        self.effects.push(InkEffect::PublishWorkspaceFailure(WorkspaceFailure::SealWriterStopped));
    }
}

} // verus!
