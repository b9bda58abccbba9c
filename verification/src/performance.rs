//! Opt-in timing: fixed histograms per stage and a bounded list of history
//! samples. Times are nanoseconds of one monotonic clock, read by the host.
use vstd::prelude::*;

use crate::histogram::{Histogram, Observations};

verus! {

pub const STAGE_COUNT: usize = 20;

pub const HISTORY_SAMPLE_CAPACITY: usize = 64;

#[derive(Clone, Copy, Debug, PartialEq, Eq, Structural)]
pub enum Stage {
    InputDequeue,
    InputPresent,
    DrainBrush,
    GpuOps,
    Composite,
    Frame,
    SurfaceAcquire,
    SurfacePresent,
    HistoryAdoption,
    Projection,
    Replay,
    Commit,
    Navigator,
    Thumbnails,
    ExportComposite,
    ExportEncode,
    ExportReplace,
    HistoryCpuSnapshot,
    HistoryQueueToAdoption,
    HistoryQueueToPresent,
}

impl Stage {
    pub open spec fn number(self) -> int {
        match self {
            Stage::InputDequeue => 0,
            Stage::InputPresent => 1,
            Stage::DrainBrush => 2,
            Stage::GpuOps => 3,
            Stage::Composite => 4,
            Stage::Frame => 5,
            Stage::SurfaceAcquire => 6,
            Stage::SurfacePresent => 7,
            Stage::HistoryAdoption => 8,
            Stage::Projection => 9,
            Stage::Replay => 10,
            Stage::Commit => 11,
            Stage::Navigator => 12,
            Stage::Thumbnails => 13,
            Stage::ExportComposite => 14,
            Stage::ExportEncode => 15,
            Stage::ExportReplace => 16,
            Stage::HistoryCpuSnapshot => 17,
            Stage::HistoryQueueToAdoption => 18,
            Stage::HistoryQueueToPresent => 19,
        }
    }

    pub fn index(self) -> (r: usize)
        ensures
            r == self.number(),
            r < STAGE_COUNT,
    {
        match self {
            Stage::InputDequeue => 0,
            Stage::InputPresent => 1,
            Stage::DrainBrush => 2,
            Stage::GpuOps => 3,
            Stage::Composite => 4,
            Stage::Frame => 5,
            Stage::SurfaceAcquire => 6,
            Stage::SurfacePresent => 7,
            Stage::HistoryAdoption => 8,
            Stage::Projection => 9,
            Stage::Replay => 10,
            Stage::Commit => 11,
            Stage::Navigator => 12,
            Stage::Thumbnails => 13,
            Stage::ExportComposite => 14,
            Stage::ExportEncode => 15,
            Stage::ExportReplace => 16,
            Stage::HistoryCpuSnapshot => 17,
            Stage::HistoryQueueToAdoption => 18,
            Stage::HistoryQueueToPresent => 19,
        }
    }

    pub open spec fn text(self) -> Seq<char> {
        match self {
            Stage::InputDequeue => "input_batch_to_dequeue"@,
            Stage::InputPresent => "input_batch_to_present_request"@,
            Stage::DrainBrush => "drain_brush"@,
            Stage::GpuOps => "gpu_ops_encode_submit"@,
            Stage::Composite => "composite_encode_submit"@,
            Stage::Frame => "frame_cpu"@,
            Stage::SurfaceAcquire => "surface_acquire"@,
            Stage::SurfacePresent => "surface_blit_present_request"@,
            Stage::HistoryAdoption => "history_adoption"@,
            Stage::Projection => "projection_publish"@,
            Stage::Replay => "stroke_replay"@,
            Stage::Commit => "stroke_commit_accept"@,
            Stage::Navigator => "navigator"@,
            Stage::Thumbnails => "layer_thumbnails"@,
            Stage::ExportComposite => "export_composite"@,
            Stage::ExportEncode => "export_encode"@,
            Stage::ExportReplace => "export_sync_replace"@,
            Stage::HistoryCpuSnapshot => "history_cpu_snapshot"@,
            Stage::HistoryQueueToAdoption => "history_queue_to_adoption"@,
            Stage::HistoryQueueToPresent => "history_queue_to_present_request"@,
        }
    }

    /// The name under which a stage is reported.
    pub fn name(self) -> (r: &'static str)
        ensures
            r@ == self.text(),
    {
        match self {
            Stage::InputDequeue => "input_batch_to_dequeue",
            Stage::InputPresent => "input_batch_to_present_request",
            Stage::DrainBrush => "drain_brush",
            Stage::GpuOps => "gpu_ops_encode_submit",
            Stage::Composite => "composite_encode_submit",
            Stage::Frame => "frame_cpu",
            Stage::SurfaceAcquire => "surface_acquire",
            Stage::SurfacePresent => "surface_blit_present_request",
            Stage::HistoryAdoption => "history_adoption",
            Stage::Projection => "projection_publish",
            Stage::Replay => "stroke_replay",
            Stage::Commit => "stroke_commit_accept",
            Stage::Navigator => "navigator",
            Stage::Thumbnails => "layer_thumbnails",
            Stage::ExportComposite => "export_composite",
            Stage::ExportEncode => "export_encode",
            Stage::ExportReplace => "export_sync_replace",
            Stage::HistoryCpuSnapshot => "history_cpu_snapshot",
            Stage::HistoryQueueToAdoption => "history_queue_to_adoption",
            Stage::HistoryQueueToPresent => "history_queue_to_present_request",
        }
    }
}

/// Boundaries of one successful history response of the worker.
#[derive(Clone, Copy, Debug, PartialEq, Eq)]
pub struct HistoryWorkerTiming {
    pub boundaries: [u128; 7],
}

#[derive(Clone, Copy, Debug, PartialEq, Eq, Structural)]
pub enum HistoryWorkerStep {
    Prepared,
    TilesLoaded,
    MetadataLoaded,
    CursorPersisted,
    SessionAccepted,
    ReplyReady,
}

impl HistoryWorkerStep {
    pub open spec fn number(self) -> int {
        match self {
            HistoryWorkerStep::Prepared => 1,
            HistoryWorkerStep::TilesLoaded => 2,
            HistoryWorkerStep::MetadataLoaded => 3,
            HistoryWorkerStep::CursorPersisted => 4,
            HistoryWorkerStep::SessionAccepted => 5,
            HistoryWorkerStep::ReplyReady => 6,
        }
    }
}

/// One accepted history request, carried only by the frame that adopts it.
#[derive(Clone, Copy, Debug, PartialEq, Eq)]
pub struct HistoryTiming {
    pub at: u128,
    pub exporting: bool,
    pub sequence: u64,
    pub worker: Option<HistoryWorkerTiming>,
    pub received: Option<u128>,
    pub adopted: Option<u128>,
}

/// A history request that was followed up to its present request.
#[derive(Clone, Copy, Debug, PartialEq, Eq)]
pub struct HistorySample {
    pub sequence: u64,
    pub exporting: bool,
    pub admission: u128,
    pub worker: HistoryWorkerTiming,
    pub received: u128,
    pub adopted: u128,
    pub presented: u128,
}

#[derive(Clone, Copy, Debug, PartialEq, Eq, Structural)]
pub struct PendingInput {
    pub at: u128,
    pub exporting: bool,
}

/// The measurements of one thread.
pub struct Recorder {
    pub histograms: Vec<Histogram>,
    pub pending_input: Option<PendingInput>,
    pub history_queued: u64,
    pub history_adopted: u64,
    pub history_presented: u64,
    pub history_samples: Vec<HistorySample>,
    pub history_samples_omitted: u64,
}

/// The mathematical content of a [`Recorder`].
pub struct Recorded {
    pub histograms: Seq<Observations>,
    pub pending_input: Option<PendingInput>,
    pub history_queued: u64,
    pub history_adopted: u64,
    pub history_presented: u64,
    pub history_samples: Seq<HistorySample>,
    pub history_samples_omitted: u64,
}

impl View for Recorder {
    type V = Recorded;

    open spec fn view(&self) -> Recorded {
        Recorded {
            histograms: self.histograms@.map_values(|histogram: Histogram| histogram@),
            pending_input: self.pending_input,
            history_queued: self.history_queued,
            history_adopted: self.history_adopted,
            history_presented: self.history_presented,
            history_samples: self.history_samples@,
            history_samples_omitted: self.history_samples_omitted,
        }
    }
}

/// Whole microseconds of an interval, rounded up; an end before its start
/// counts as none.
pub open spec fn elapsed_micros(from: u128, to: u128) -> u64 {
    let nanos = if to > from { to - from } else { 0 };
    let micros = (nanos + 999) / 1000;
    if micros <= u64::MAX { micros as u64 } else { u64::MAX }
}

pub fn micros_between(from: u128, to: u128) -> (r: u64)
    ensures
        r == elapsed_micros(from, to),
{
    let nanos: u128 = if to > from {
        to - from
    } else {
        0
    };
    let micros: u128 = if nanos % 1000 == 0 {
        nanos / 1000
    } else {
        nanos / 1000 + 1
    };
    if micros <= u64::MAX as u128 {
        micros as u64
    } else {
        u64::MAX
    }
}

/// The histogram of a stage, apart for spans that began during an export.
pub open spec fn histogram_slot(stage: Stage, exporting: bool) -> int {
    stage.number() * 2 + if exporting { 1int } else { 0 }
}

impl Recorded {
    pub open spec fn wf(self) -> bool {
        &&& self.histograms.len() == 2 * STAGE_COUNT
        &&& forall|i: int| 0 <= i < self.histograms.len() ==> (#[trigger] self.histograms[i]).wf()
        &&& self.history_samples.len() <= HISTORY_SAMPLE_CAPACITY
    }

    pub open spec fn recording(self, stage: Stage, micros: u64, exporting: bool) -> Recorded {
        let slot = histogram_slot(stage, exporting);
        Recorded {
            histograms: self.histograms.update(slot, self.histograms[slot].adding(micros)),
            ..self
        }
    }

    pub open spec fn fresh() -> Recorded {
        Recorded {
            histograms: Seq::new(
                (2 * STAGE_COUNT) as nat,
                |i: int|
                    Observations {
                        bins: Seq::new(crate::histogram::BINS as nat, |bin: int| 0u64),
                        count: 0,
                        min: u64::MAX,
                        max: 0,
                    },
            ),
            pending_input: None,
            history_queued: 0,
            history_adopted: 0,
            history_presented: 0,
            history_samples: Seq::empty(),
            history_samples_omitted: 0,
        }
    }

    pub open spec fn keeping_sample(self, sample: HistorySample) -> Recorded {
        if self.history_samples.len() < HISTORY_SAMPLE_CAPACITY {
            Recorded { history_samples: self.history_samples.push(sample), ..self }
        } else {
            Recorded {
                history_samples_omitted: crate::histogram::saturating_plus_one(
                    self.history_samples_omitted,
                ),
                ..self
            }
        }
    }
}

impl Recorder {
    pub fn new() -> (r: Self)
        ensures
            r@ == Recorded::fresh(),
            r@.wf(),
    {
        let mut histograms: Vec<Histogram> = Vec::new();
        let mut index: usize = 0;
        while index < 2 * STAGE_COUNT
            invariant
                index <= 2 * STAGE_COUNT,
                histograms@.len() == index,
                forall|i: int|
                    0 <= i < index ==> (#[trigger] histograms@[i])@ == (Observations {
                        bins: Seq::new(crate::histogram::BINS as nat, |bin: int| 0u64),
                        count: 0,
                        min: u64::MAX,
                        max: 0,
                    }) && histograms@[i]@.wf(),
            decreases 2 * STAGE_COUNT - index,
        {
            histograms.push(Histogram::new());
            index = index + 1;
        }
        let r = Recorder {
            histograms,
            pending_input: None,
            history_queued: 0,
            history_adopted: 0,
            history_presented: 0,
            history_samples: Vec::new(),
            history_samples_omitted: 0,
        };
        assert(r@.histograms =~= Recorded::fresh().histograms);
        assert forall|i: int| 0 <= i < r@.histograms.len() implies (
        #[trigger] r@.histograms[i]).wf() by {
            assert(r.histograms@[i]@.wf());
        }
        r
    }

    fn record_span(&mut self, stage: Stage, micros: u64, exporting: bool)
        requires
            old(self)@.wf(),
        ensures
            final(self)@ == old(self)@.recording(stage, micros, exporting),
            final(self)@.wf(),
    {
        let slot: usize = stage.index() * 2 + if exporting {
            1
        } else {
            0
        };
        let ghost before = self.histograms@;
        assert(self@.histograms[slot as int].wf());
        let mut histogram = Histogram::new();
        core::mem::swap(&mut histogram, &mut self.histograms[slot]);
        histogram.add(micros);
        core::mem::swap(&mut histogram, &mut self.histograms[slot]);
        assert(self@.histograms =~= old(self)@.recording(stage, micros, exporting).histograms);
        assert forall|i: int| 0 <= i < self@.histograms.len() implies (
        #[trigger] self@.histograms[i]).wf() by {
            if i != slot {
                assert(old(self)@.histograms[i].wf());
            }
        }
    }
}

/// The measuring of one thread: whether it is on, whether an export runs, and
/// what was recorded so far.
pub struct Performance {
    pub enabled: bool,
    pub exporting: bool,
    pub recorder: Option<Recorder>,
}

impl Performance {
    pub open spec fn recorded(self) -> Recorded {
        match self.recorder {
            Some(recorder) => recorder@,
            None => Recorded::fresh(),
        }
    }

    pub open spec fn wf(self) -> bool {
        self.recorder matches Some(recorder) ==> recorder@.wf()
    }
}

/// The time, where measuring is on.
pub fn start(performance: &Performance, now: u128) -> (r: Option<u128>)
    ensures
        r == (if performance.enabled {
            Some(now)
        } else {
            None
        }),
{
    if performance.enabled {
        Some(now)
    } else {
        None
    }
}

/// Makes sure that there is a recorder.
pub fn with_recorder(performance: &mut Performance) -> (r: Recorder)
    requires
        old(performance).wf(),
    ensures
        r@ == old(performance).recorded(),
        r@.wf(),
        final(performance).recorder is None,
        final(performance).enabled == old(performance).enabled,
        final(performance).exporting == old(performance).exporting,
{
    match performance.recorder.take() {
        Some(recorder) => recorder,
        None => Recorder::new(),
    }
}

/// Only the measurements changed.
pub open spec fn same_switches(before: Performance, after: Performance) -> bool {
    &&& after.enabled == before.enabled
    &&& after.exporting == before.exporting
    &&& after.wf()
}

/// Records a span that began at `at` and ends now.
pub fn record(performance: &mut Performance, stage: Stage, at: u128, now: u128, exporting: bool)
    requires
        old(performance).wf(),
    ensures
        same_switches(*old(performance), *final(performance)),
        final(performance).recorded() == old(performance).recorded().recording(
            stage,
            elapsed_micros(at, now),
            exporting,
        ),
{
    let mut recorder = with_recorder(performance);
    recorder.record_span(stage, micros_between(at, now), exporting);
    performance.recorder = Some(recorder);
}

/// A span of one stage; `None` while measuring is off.
#[derive(Clone, Copy, Debug, PartialEq, Eq, Structural)]
pub struct SpanStart {
    pub at: u128,
    pub stage: Stage,
    pub exporting: bool,
}

pub struct Span {
    pub start: Option<SpanStart>,
}

impl Span {
    pub fn new(performance: &Performance, stage: Stage, now: u128) -> (r: Self)
        ensures
            r.start == (if performance.enabled {
                Some(SpanStart { at: now, stage, exporting: performance.exporting })
            } else {
                None
            }),
    {
        let start = match start(performance, now) {
            Some(at) => Some(SpanStart { at, stage, exporting: performance.exporting }),
            None => None,
        };
        Span { start }
    }

    /// Ends the span and records it in the histogram it began for.
    pub fn finish(self, performance: &mut Performance, now: u128)
        requires
            old(performance).wf(),
        ensures
            match self.start {
                Some(start) => {
                    &&& same_switches(*old(performance), *final(performance))
                    &&& final(performance).recorded() == old(performance).recorded().recording(
                        start.stage,
                        elapsed_micros(start.at, now),
                        start.exporting,
                    )
                },
                None => *final(performance) == *old(performance),
            },
    {
        if let Some(start) = self.start {
            record(performance, start.stage, start.at, now, start.exporting);
        }
    }
}

/// The time during which the writer exports.
pub struct ExportInterval {
    pub entered: bool,
}

impl ExportInterval {
    pub fn enter(performance: &mut Performance) -> (r: Self)
        ensures
            r.entered == old(performance).enabled,
            final(performance).exporting == (old(performance).exporting || old(
                performance,
            ).enabled),
            final(performance).enabled == old(performance).enabled,
            final(performance).recorder == old(performance).recorder,
    {
        if performance.enabled {
            performance.exporting = true;
        }
        ExportInterval { entered: performance.enabled }
    }

    pub fn leave(self, performance: &mut Performance)
        ensures
            *final(performance) == (Performance { exporting: false, ..*old(performance) }),
    {
        performance.exporting = false;
    }
}

impl HistoryTiming {
    pub fn queued(performance: &mut Performance, now: u128) -> (r: Option<Self>)
        requires
            old(performance).wf(),
        ensures
            !old(performance).enabled ==> r is None && *final(performance) == *old(performance),
            old(performance).enabled ==> {
                &&& same_switches(*old(performance), *final(performance))
                &&& final(performance).recorded() == (Recorded {
                    history_queued: crate::histogram::saturating_plus_one(
                        old(performance).recorded().history_queued,
                    ),
                    ..old(performance).recorded()
                })
                &&& r == Some(
                    HistoryTiming {
                        at: now,
                        exporting: old(performance).exporting,
                        sequence: final(performance).recorded().history_queued,
                        worker: None,
                        received: None,
                        adopted: None,
                    },
                )
            },
    {
        if !performance.enabled {
            return None;
        }
        let mut recorder = with_recorder(performance);
        recorder.history_queued = recorder.history_queued.saturating_add(1);
        let sequence: u64 = recorder.history_queued;
        performance.recorder = Some(recorder);
        Some(
            HistoryTiming {
                at: now,
                exporting: performance.exporting,
                sequence,
                worker: None,
                received: None,
                adopted: None,
            },
        )
    }

    pub fn received(&mut self, worker: Option<HistoryWorkerTiming>, now: u128)
        ensures
            *final(self) == (HistoryTiming { received: Some(now), worker, ..*old(self) }),
    {
        self.received = Some(now);
        self.worker = worker;
    }

    pub fn adopted(&mut self, performance: &mut Performance, now: u128)
        requires
            old(performance).wf(),
        ensures
            *final(self) == (HistoryTiming { adopted: Some(now), ..*old(self) }),
            same_switches(*old(performance), *final(performance)),
            final(performance).recorded() == (Recorded {
                history_adopted: crate::histogram::saturating_plus_one(
                    old(performance).recorded().history_adopted,
                ),
                ..old(performance).recorded().recording(
                    Stage::HistoryQueueToAdoption,
                    elapsed_micros(old(self).at, now),
                    old(self).exporting,
                )
            }),
    {
        self.adopted = Some(now);
        record(performance, Stage::HistoryQueueToAdoption, self.at, now, self.exporting);
        let mut recorder = with_recorder(performance);
        recorder.history_adopted = recorder.history_adopted.saturating_add(1);
        performance.recorder = Some(recorder);
    }

    /// Counts the presented frame, and keeps a sample where every boundary of
    /// the request is known.
    pub fn presented(self, performance: &mut Performance, now: u128)
        requires
            old(performance).wf(),
        ensures
            same_switches(*old(performance), *final(performance)),
            ({
                let counted = Recorded {
                    history_presented: crate::histogram::saturating_plus_one(
                        old(performance).recorded().history_presented,
                    ),
                    ..old(performance).recorded().recording(
                        Stage::HistoryQueueToPresent,
                        elapsed_micros(self.at, now),
                        self.exporting,
                    )
                };
                final(performance).recorded() == (if self.worker is Some && self.received is Some
                    && self.adopted is Some {
                    counted.keeping_sample(
                        HistorySample {
                            sequence: self.sequence,
                            exporting: self.exporting,
                            admission: self.at,
                            worker: self.worker->0,
                            received: self.received->0,
                            adopted: self.adopted->0,
                            presented: now,
                        },
                    )
                } else {
                    counted
                })
            }),
    {
        record(performance, Stage::HistoryQueueToPresent, self.at, now, self.exporting);
        let mut recorder = with_recorder(performance);
        recorder.history_presented = recorder.history_presented.saturating_add(1);
        if let (Some(worker), Some(received), Some(adopted)) = (
            self.worker,
            self.received,
            self.adopted,
        ) {
            if recorder.history_samples.len() < HISTORY_SAMPLE_CAPACITY {
                recorder.history_samples.push(
                    HistorySample {
                        sequence: self.sequence,
                        exporting: self.exporting,
                        admission: self.at,
                        worker,
                        received,
                        adopted,
                        presented: now,
                    },
                );
            } else {
                recorder.history_samples_omitted =
                recorder.history_samples_omitted.saturating_add(1);
            }
        }
        performance.recorder = Some(recorder);
    }
}

impl HistoryWorkerTiming {
    pub fn begin(performance: &Performance, now: u128) -> (r: Option<Self>)
        ensures
            performance.enabled ==> (r matches Some(timing) && timing.boundaries@ == Seq::new(
                7,
                |i: int| now,
            )),
            !performance.enabled ==> r is None,
    {
        if !performance.enabled {
            return None;
        }
        let timing = HistoryWorkerTiming { boundaries: [now; 7] };
        assert(timing.boundaries@ =~= Seq::new(7, |i: int| now));
        Some(timing)
    }

    pub fn mark(timing: &mut Option<Self>, step: HistoryWorkerStep, now: u128)
        ensures
            match *old(timing) {
                Some(before) => *final(timing) matches Some(after) && after.boundaries@
                    == before.boundaries@.update(step.number(), now),
                None => *final(timing) is None,
            },
    {
        if let Some(marked) = *timing {
            let mut next = marked;
            let index: usize = match step {
                HistoryWorkerStep::Prepared => 1,
                HistoryWorkerStep::TilesLoaded => 2,
                HistoryWorkerStep::MetadataLoaded => 3,
                HistoryWorkerStep::CursorPersisted => 4,
                HistoryWorkerStep::SessionAccepted => 5,
                HistoryWorkerStep::ReplyReady => 6,
            };
            next.boundaries[index] = now;
            *timing = Some(next);
        }
    }
}

/// The first input batch after a present waits for the next one.
pub fn input_dequeued(performance: &mut Performance, at: Option<u128>, now: u128)
    requires
        old(performance).wf(),
    ensures
        match at {
            Some(at) => {
                &&& same_switches(*old(performance), *final(performance))
                &&& ({
                    let recorded = old(performance).recorded().recording(
                        Stage::InputDequeue,
                        elapsed_micros(at, now),
                        old(performance).exporting,
                    );
                    final(performance).recorded() == (Recorded {
                        pending_input: match recorded.pending_input {
                            Some(pending) => Some(pending),
                            None => Some(
                                PendingInput { at, exporting: old(performance).exporting },
                            ),
                        },
                        ..recorded
                    })
                })
            },
            None => *final(performance) == *old(performance),
        },
{
    if let Some(at) = at {
        let exporting = performance.exporting;
        record(performance, Stage::InputDequeue, at, now, exporting);
        let mut recorder = with_recorder(performance);
        if recorder.pending_input.is_none() {
            recorder.pending_input = Some(PendingInput { at, exporting });
        }
        performance.recorder = Some(recorder);
    }
}

/// A present request returned: the waiting input batch is measured with it.
pub fn presented(performance: &mut Performance, now: u128)
    requires
        old(performance).wf(),
    ensures
        same_switches(*old(performance), *final(performance)),
        ({
            let before = old(performance).recorded();
            match before.pending_input {
                Some(pending) => if old(performance).enabled {
                    final(performance).recorded() == Recorded {
                        pending_input: None,
                        ..before
                    }.recording(
                        Stage::InputPresent,
                        elapsed_micros(pending.at, now),
                        pending.exporting,
                    )
                } else {
                    final(performance).recorded() == before
                },
                None => final(performance).recorded() == before,
            }
        }),
{
    if !performance.enabled {
        return ;
    }
    let mut recorder = with_recorder(performance);
    let pending = recorder.pending_input;
    recorder.pending_input = None;
    performance.recorder = Some(recorder);
    if let Some(pending) = pending {
        record(performance, Stage::InputPresent, pending.at, now, pending.exporting);
    }
}

} // verus!
