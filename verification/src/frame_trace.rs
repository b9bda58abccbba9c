//! A bounded trace of slow frames, for correlation with input batches.
use vstd::prelude::*;

verus! {

pub const FRAME_TRACE_CAPACITY: usize = 128;

/// Frames at least this long are kept.
pub const FRAME_TRACE_TAIL_US: u128 = 8_000;

#[derive(Clone, Copy, Debug, PartialEq, Eq, Structural)]
pub enum FrameMark {
    Render,
    SceneBegin,
    SceneEnd,
    AcquireBegin,
    AcquireEnd,
    PresentBegin,
    PresentEnd,
    ViewportBegin,
    ViewportEnd,
}

/// The marks of one frame.
#[derive(Clone, Copy, Debug, PartialEq, Eq, Structural)]
pub struct FrameMarks {
    pub render: Option<u128>,
    pub scene_begin: Option<u128>,
    pub scene_end: Option<u128>,
    pub acquire_begin: Option<u128>,
    pub acquire_end: Option<u128>,
    pub present_begin: Option<u128>,
    pub present_end: Option<u128>,
    pub viewport_begin: Option<u128>,
    pub viewport_end: Option<u128>,
}

#[derive(Clone, Copy, Debug, PartialEq, Eq, Structural)]
pub struct MaterializedCounters {
    pub nanos: u128,
    pub calls: u64,
    pub completed: u64,
    pub cpu_clones: u64,
    pub cpu_bytes: u64,
    pub upload_attempts: u64,
    pub upload_successes: u64,
    pub deferred: u64,
    pub outside_scene_calls: u64,
}

/// Input that was dequeued but not presented yet.
#[derive(Clone, Copy, Debug, PartialEq, Eq, Structural)]
pub struct TraceInput {
    pub admission: u128,
    pub first_dequeue: u128,
    pub last_dequeue: u128,
    pub first_batch: u64,
    pub batches: u64,
    pub exporting_at_first_dequeue: bool,
    pub crossed_control_boundary: bool,
}

#[derive(Clone, Copy, Debug, PartialEq, Eq, Structural)]
pub struct FrameSample {
    pub id: u64,
    pub wake: u128,
    pub end: u128,
    pub marks: FrameMarks,
    pub viewport_calls: u64,
    pub materialized: MaterializedCounters,
    pub input: Option<TraceInput>,
    pub dequeues: u64,
    pub exporting_at_wake: bool,
    pub control_boundary: bool,
}

/// The counters of a trace.
#[derive(Clone, Copy, Debug, PartialEq, Eq, Structural)]
pub struct FrameTotals {
    pub omitted: u64,
    pub below_threshold: u64,
    pub unframed_dequeues: u64,
    pub presented: u64,
    pub skipped: u64,
    pub control_only: u64,
    pub coalesced_presentations: u64,
}

pub struct FrameTrace {
    pub materialized_totals: MaterializedCounters,
    pub sequence: u64,
    pub current: Option<FrameSample>,
    pub pending: Option<TraceInput>,
    pub samples: Vec<FrameSample>,
    pub totals: FrameTotals,
}

/// The mathematical content of a [`FrameTrace`].
pub struct Traced {
    pub materialized_totals: MaterializedCounters,
    pub sequence: u64,
    pub current: Option<FrameSample>,
    pub pending: Option<TraceInput>,
    pub samples: Seq<FrameSample>,
    pub totals: FrameTotals,
}

impl View for FrameTrace {
    type V = Traced;

    open spec fn view(&self) -> Traced {
        Traced {
            materialized_totals: self.materialized_totals,
            sequence: self.sequence,
            current: self.current,
            pending: self.pending,
            samples: self.samples@,
            totals: self.totals,
        }
    }
}

pub open spec fn plus(a: u64, b: u64) -> u64 {
    if a + b <= u64::MAX { (a + b) as u64 } else { u64::MAX }
}

pub open spec fn plus_wide(a: u128, b: u128) -> u128 {
    if a + b <= u128::MAX { (a + b) as u128 } else { u128::MAX }
}

pub open spec fn narrow(count: usize) -> u64 {
    if count <= u64::MAX { count as u64 } else { u64::MAX }
}

fn narrowed(count: usize) -> (r: u64)
    ensures
        r == narrow(count),
{
    let wide: u128 = count as u128;
    if wide <= u64::MAX as u128 {
        wide as u64
    } else {
        u64::MAX
    }
}

impl MaterializedCounters {
    pub open spec fn zero() -> MaterializedCounters {
        MaterializedCounters {
            nanos: 0,
            calls: 0,
            completed: 0,
            cpu_clones: 0,
            cpu_bytes: 0,
            upload_attempts: 0,
            upload_successes: 0,
            deferred: 0,
            outside_scene_calls: 0,
        }
    }

    pub open spec fn with(self, more: MaterializedCounters) -> MaterializedCounters {
        MaterializedCounters {
            nanos: plus_wide(self.nanos, more.nanos),
            calls: plus(self.calls, more.calls),
            completed: plus(self.completed, more.completed),
            cpu_clones: plus(self.cpu_clones, more.cpu_clones),
            cpu_bytes: plus(self.cpu_bytes, more.cpu_bytes),
            upload_attempts: plus(self.upload_attempts, more.upload_attempts),
            upload_successes: plus(self.upload_successes, more.upload_successes),
            deferred: plus(self.deferred, more.deferred),
            outside_scene_calls: plus(self.outside_scene_calls, more.outside_scene_calls),
        }
    }

    pub fn none() -> (r: Self)
        ensures
            r == MaterializedCounters::zero(),
    {
        MaterializedCounters {
            nanos: 0,
            calls: 0,
            completed: 0,
            cpu_clones: 0,
            cpu_bytes: 0,
            upload_attempts: 0,
            upload_successes: 0,
            deferred: 0,
            outside_scene_calls: 0,
        }
    }

    pub fn accumulate(&mut self, more: MaterializedCounters)
        ensures
            *final(self) == old(self).with(more),
    {
        self.nanos = self.nanos.saturating_add(more.nanos);
        self.calls = self.calls.saturating_add(more.calls);
        self.completed = self.completed.saturating_add(more.completed);
        self.cpu_clones = self.cpu_clones.saturating_add(more.cpu_clones);
        self.cpu_bytes = self.cpu_bytes.saturating_add(more.cpu_bytes);
        self.upload_attempts = self.upload_attempts.saturating_add(more.upload_attempts);
        self.upload_successes = self.upload_successes.saturating_add(more.upload_successes);
        self.deferred = self.deferred.saturating_add(more.deferred);
        self.outside_scene_calls =
        self.outside_scene_calls.saturating_add(more.outside_scene_calls);
    }
}

/// When one adoption call started, and in which frame.
#[derive(Clone, Copy, Debug, PartialEq, Eq, Structural)]
pub struct AdoptionStart {
    pub at: u128,
    pub frame: u64,
}

/// Counters of one adoption call. Calls outside a traced frame count nothing.
#[derive(Clone, Copy, Debug, PartialEq, Eq, Structural)]
pub struct MaterializedTrace {
    pub started: Option<AdoptionStart>,
    pub counts: MaterializedCounters,
}

/// The frame is not inside its scene.
pub open spec fn outside_scene(marks: FrameMarks) -> bool {
    marks.scene_begin is None || marks.scene_end is Some
}

impl MaterializedTrace {
    pub fn begin(trace: Option<&FrameTrace>, now: u128) -> (r: Self)
        ensures
            r == (match trace {
                Some(trace) => match trace.current {
                    Some(current) => MaterializedTrace {
                        started: Some(AdoptionStart { at: now, frame: current.id }),
                        counts: MaterializedCounters {
                            calls: 1,
                            outside_scene_calls: if outside_scene(current.marks) {
                                1
                            } else {
                                0
                            },
                            ..MaterializedCounters::zero()
                        },
                    },
                    None => MaterializedTrace {
                        started: None,
                        counts: MaterializedCounters::zero(),
                    },
                },
                None => MaterializedTrace { started: None, counts: MaterializedCounters::zero() },
            }),
    {
        let mut result = MaterializedTrace { started: None, counts: MaterializedCounters::none() };
        if let Some(trace) = trace {
            if let Some(current) = trace.current {
                result.started = Some(AdoptionStart { at: now, frame: current.id });
                result.counts.calls = 1;
                result.counts.outside_scene_calls = if current.marks.scene_begin.is_none()
                    || current.marks.scene_end.is_some() {
                    1
                } else {
                    0
                };
            }
        }
        result
    }

    pub fn add_completed(&mut self, count: usize)
        ensures
            *final(self) == (if old(self).started is Some {
                MaterializedTrace {
                    counts: MaterializedCounters {
                        completed: plus(old(self).counts.completed, narrow(count)),
                        ..old(self).counts
                    },
                    ..*old(self)
                }
            } else {
                *old(self)
            }),
    {
        if self.started.is_some() {
            self.counts.completed = self.counts.completed.saturating_add(narrowed(count));
        }
    }

    pub fn add_cpu_clone(&mut self, bytes: usize)
        ensures
            *final(self) == old(self).cloning(bytes),
    {
        if self.started.is_some() {
            self.counts.cpu_clones = self.counts.cpu_clones.saturating_add(1);
            self.counts.cpu_bytes = self.counts.cpu_bytes.saturating_add(narrowed(bytes));
        }
    }

    pub open spec fn attempting(self) -> MaterializedTrace {
        if self.started is Some {
            MaterializedTrace {
                counts: MaterializedCounters {
                    upload_attempts: plus(self.counts.upload_attempts, 1),
                    ..self.counts
                },
                ..self
            }
        } else {
            self
        }
    }

    pub open spec fn succeeding(self) -> MaterializedTrace {
        if self.started is Some {
            MaterializedTrace {
                counts: MaterializedCounters {
                    upload_successes: plus(self.counts.upload_successes, 1),
                    ..self.counts
                },
                ..self
            }
        } else {
            self
        }
    }

    pub open spec fn deferring(self) -> MaterializedTrace {
        if self.started is Some {
            MaterializedTrace {
                counts: MaterializedCounters {
                    deferred: plus(self.counts.deferred, 1),
                    ..self.counts
                },
                ..self
            }
        } else {
            self
        }
    }

    pub open spec fn cloning(self, bytes: usize) -> MaterializedTrace {
        if self.started is Some {
            MaterializedTrace {
                counts: MaterializedCounters {
                    cpu_clones: plus(self.counts.cpu_clones, 1),
                    cpu_bytes: plus(self.counts.cpu_bytes, narrow(bytes)),
                    ..self.counts
                },
                ..self
            }
        } else {
            self
        }
    }

    pub fn add_upload_attempt(&mut self)
        ensures
            *final(self) == old(self).attempting(),
    {
        if self.started.is_some() {
            self.counts.upload_attempts = self.counts.upload_attempts.saturating_add(1);
        }
    }

    pub fn add_upload_success(&mut self)
        ensures
            *final(self) == old(self).succeeding(),
    {
        if self.started.is_some() {
            self.counts.upload_successes = self.counts.upload_successes.saturating_add(1);
        }
    }

    pub fn add_deferred(&mut self)
        ensures
            *final(self) == old(self).deferring(),
    {
        if self.started.is_some() {
            self.counts.deferred = self.counts.deferred.saturating_add(1);
        }
    }

    /// Adds the call to its frame, if that frame is still open.
    pub fn finish(self, trace: &mut FrameTrace, now: u128)
        ensures
            final(trace)@ == (match self.started {
                Some(start) => match old(trace)@.current {
                    Some(current) => if current.id == start.frame {
                        let counts = MaterializedCounters {
                            nanos: if now > start.at {
                                (now - start.at) as u128
                            } else {
                                0
                            },
                            ..self.counts
                        };
                        Traced {
                            current: Some(
                                FrameSample {
                                    materialized: current.materialized.with(counts),
                                    ..current
                                },
                            ),
                            materialized_totals: old(trace)@.materialized_totals.with(counts),
                            ..old(trace)@
                        }
                    } else {
                        old(trace)@
                    },
                    None => old(trace)@,
                },
                None => old(trace)@,
            }),
    {
        let start = match self.started {
            Some(start) => start,
            None => {
                return ;
            },
        };
        let mut counts = self.counts;
        counts.nanos = if now > start.at {
            now - start.at
        } else {
            0
        };
        if let Some(current) = trace.current {
            if current.id == start.frame {
                let mut sample = current;
                sample.materialized.accumulate(counts);
                trace.current = Some(sample);
                trace.materialized_totals.accumulate(counts);
            }
        }
    }
}

pub open spec fn no_marks() -> FrameMarks {
    FrameMarks {
        render: None,
        scene_begin: None,
        scene_end: None,
        acquire_begin: None,
        acquire_end: None,
        present_begin: None,
        present_end: None,
        viewport_begin: None,
        viewport_end: None,
    }
}

impl FrameMarks {
    pub open spec fn marked(self, mark: FrameMark, now: u128) -> FrameMarks {
        match mark {
            FrameMark::Render => FrameMarks { render: Some(now), ..self },
            FrameMark::SceneBegin => FrameMarks { scene_begin: Some(now), ..self },
            FrameMark::SceneEnd => FrameMarks { scene_end: Some(now), ..self },
            FrameMark::AcquireBegin => FrameMarks { acquire_begin: Some(now), ..self },
            FrameMark::AcquireEnd => FrameMarks { acquire_end: Some(now), ..self },
            FrameMark::PresentBegin => FrameMarks { present_begin: Some(now), ..self },
            FrameMark::PresentEnd => FrameMarks { present_end: Some(now), ..self },
            FrameMark::ViewportBegin => FrameMarks {
                viewport_begin: Some(now),
                viewport_end: None,
                ..self
            },
            FrameMark::ViewportEnd => FrameMarks { viewport_end: Some(now), ..self },
        }
    }

    fn mark(&mut self, mark: FrameMark, now: u128)
        ensures
            *final(self) == old(self).marked(mark, now),
    {
        match mark {
            FrameMark::Render => {
                self.render = Some(now);
            },
            FrameMark::SceneBegin => {
                self.scene_begin = Some(now);
            },
            FrameMark::SceneEnd => {
                self.scene_end = Some(now);
            },
            FrameMark::AcquireBegin => {
                self.acquire_begin = Some(now);
            },
            FrameMark::AcquireEnd => {
                self.acquire_end = Some(now);
            },
            FrameMark::PresentBegin => {
                self.present_begin = Some(now);
            },
            FrameMark::PresentEnd => {
                self.present_end = Some(now);
            },
            FrameMark::ViewportBegin => {
                self.viewport_begin = Some(now);
                self.viewport_end = None;
            },
            FrameMark::ViewportEnd => {
                self.viewport_end = Some(now);
            },
        }
    }
}

pub open spec fn micros_of(from: u128, to: u128) -> int {
    if to > from { (to - from) / 1000 } else { 0 }
}

fn tail(from: u128, to: u128) -> (r: bool)
    ensures
        r == (micros_of(from, to) >= FRAME_TRACE_TAIL_US),
{
    let nanos: u128 = if to > from {
        to - from
    } else {
        0
    };
    nanos / 1000 >= FRAME_TRACE_TAIL_US
}

impl FrameSample {
    /// The frame is long, delayed its input, or left dequeued input
    /// unpresented.
    pub open spec fn worth_keeping(self) -> bool {
        ||| micros_of(self.wake, self.end) >= FRAME_TRACE_TAIL_US
        ||| self.input matches Some(input) && micros_of(
            input.admission,
            match self.marks.present_end {
                Some(present) => present,
                None => self.end,
            },
        ) >= FRAME_TRACE_TAIL_US
        ||| self.dequeues > 0 && self.marks.present_end is None
    }
}

impl Traced {
    pub open spec fn wf(self) -> bool {
        self.samples.len() <= FRAME_TRACE_CAPACITY
    }

    pub open spec fn batch_begun(self, control_boundary: bool, exporting: bool, now: u128) -> Traced {
        Traced {
            pending: match self.pending {
                Some(pending) => Some(
                    TraceInput {
                        crossed_control_boundary: pending.crossed_control_boundary
                            || control_boundary,
                        ..pending
                    },
                ),
                None => None,
            },
            sequence: plus(self.sequence, 1),
            current: Some(
                FrameSample {
                    id: plus(self.sequence, 1),
                    wake: now,
                    end: now,
                    marks: no_marks(),
                    viewport_calls: 0,
                    materialized: MaterializedCounters::zero(),
                    input: None,
                    dequeues: 0,
                    exporting_at_wake: exporting,
                    control_boundary,
                },
            ),
            ..self
        }
    }

    /// The counters after a frame with these marks and this input.
    pub open spec fn totals_after(self, sample: FrameSample) -> FrameTotals {
        let kind = if sample.marks.present_end is Some {
            FrameTotals {
                presented: plus(self.totals.presented, 1),
                coalesced_presentations: if sample.input matches Some(input) && input.batches > 1 {
                    plus(self.totals.coalesced_presentations, 1)
                } else {
                    self.totals.coalesced_presentations
                },
                ..self.totals
            }
        } else if sample.marks.render is Some {
            FrameTotals { skipped: plus(self.totals.skipped, 1), ..self.totals }
        } else {
            FrameTotals { control_only: plus(self.totals.control_only, 1), ..self.totals }
        };
        if !sample.worth_keeping() {
            FrameTotals { below_threshold: plus(kind.below_threshold, 1), ..kind }
        } else if self.samples.len() < FRAME_TRACE_CAPACITY {
            kind
        } else {
            FrameTotals { omitted: plus(kind.omitted, 1), ..kind }
        }
    }

    pub open spec fn batch_ended(self, now: u128) -> Traced {
        match self.current {
            None => self,
            Some(current) => {
                let sample = FrameSample { end: now, input: self.pending, ..current };
                Traced {
                    current: None,
                    totals: self.totals_after(sample),
                    samples: if sample.worth_keeping() && self.samples.len()
                        < FRAME_TRACE_CAPACITY {
                        self.samples.push(sample)
                    } else {
                        self.samples
                    },
                    pending: if sample.marks.present_end is Some {
                        None
                    } else {
                        self.pending
                    },
                    ..self
                }
            },
        }
    }

    pub open spec fn dequeued(self, admission: u128, exporting: bool, now: u128) -> Traced {
        match self.current {
            None => Traced {
                totals: FrameTotals {
                    unframed_dequeues: plus(self.totals.unframed_dequeues, 1),
                    ..self.totals
                },
                ..self
            },
            Some(current) => {
                let pending = match self.pending {
                    Some(pending) => pending,
                    None => TraceInput {
                        admission,
                        first_dequeue: now,
                        last_dequeue: now,
                        first_batch: current.id,
                        batches: 0,
                        exporting_at_first_dequeue: exporting,
                        crossed_control_boundary: current.control_boundary,
                    },
                };
                Traced {
                    current: Some(
                        FrameSample { dequeues: plus(current.dequeues, 1), ..current },
                    ),
                    pending: Some(
                        TraceInput {
                            admission: if admission < pending.admission {
                                admission
                            } else {
                                pending.admission
                            },
                            last_dequeue: now,
                            batches: plus(pending.batches, 1),
                            ..pending
                        },
                    ),
                    ..self
                }
            },
        }
    }
}

impl FrameTrace {
    pub fn new() -> (r: Self)
        ensures
            r@.wf(),
            r@ == (Traced {
                materialized_totals: MaterializedCounters::zero(),
                sequence: 0,
                current: None,
                pending: None,
                samples: Seq::empty(),
                totals: FrameTotals {
                    omitted: 0,
                    below_threshold: 0,
                    unframed_dequeues: 0,
                    presented: 0,
                    skipped: 0,
                    control_only: 0,
                    coalesced_presentations: 0,
                },
            }),
    {
        FrameTrace {
            materialized_totals: MaterializedCounters::none(),
            sequence: 0,
            current: None,
            pending: None,
            samples: Vec::new(),
            totals: FrameTotals {
                omitted: 0,
                below_threshold: 0,
                unframed_dequeues: 0,
                presented: 0,
                skipped: 0,
                control_only: 0,
                coalesced_presentations: 0,
            },
        }
    }

    /// Opens the frame of one mailbox batch.
    pub fn begin_batch(&mut self, control_boundary: bool, exporting: bool, now: u128)
        ensures
            final(self)@ == old(self)@.batch_begun(control_boundary, exporting, now),
            old(self)@.wf() ==> final(self)@.wf(),
    {
        if let Some(pending) = self.pending {
            self.pending = Some(
                TraceInput {
                    crossed_control_boundary: pending.crossed_control_boundary || control_boundary,
                    ..pending
                },
            );
        }
        self.sequence = self.sequence.saturating_add(1);
        self.current = Some(
            FrameSample {
                id: self.sequence,
                wake: now,
                end: now,
                marks: FrameMarks {
                    render: None,
                    scene_begin: None,
                    scene_end: None,
                    acquire_begin: None,
                    acquire_end: None,
                    present_begin: None,
                    present_end: None,
                    viewport_begin: None,
                    viewport_end: None,
                },
                viewport_calls: 0,
                materialized: MaterializedCounters::none(),
                input: None,
                dequeues: 0,
                exporting_at_wake: exporting,
                control_boundary,
            },
        );
    }

    /// Closes the open frame, counts it and keeps it where it is worth that.
    pub fn end_batch(&mut self, now: u128)
        requires
            old(self)@.wf(),
        ensures
            final(self)@ == old(self)@.batch_ended(now),
            final(self)@.wf(),
    {
        let current = match self.current {
            Some(current) => current,
            None => {
                return ;
            },
        };
        let sample = FrameSample { end: now, input: self.pending, ..current };
        let mut totals = self.totals;
        let presented = sample.marks.present_end.is_some();
        if presented {
            totals.presented = totals.presented.saturating_add(1);
            let coalesced = match sample.input {
                Some(input) => input.batches > 1,
                None => false,
            };
            if coalesced {
                totals.coalesced_presentations = totals.coalesced_presentations.saturating_add(1);
            }
        } else if sample.marks.render.is_some() {
            totals.skipped = totals.skipped.saturating_add(1);
        } else {
            totals.control_only = totals.control_only.saturating_add(1);
        }
        let input_tail = match sample.input {
            Some(input) => tail(
                input.admission,
                match sample.marks.present_end {
                    Some(present) => present,
                    None => sample.end,
                },
            ),
            None => false,
        };
        let unpresented = sample.dequeues > 0 && !presented;
        if tail(sample.wake, sample.end) || input_tail || unpresented {
            if self.samples.len() < FRAME_TRACE_CAPACITY {
                self.samples.push(sample);
            } else {
                totals.omitted = totals.omitted.saturating_add(1);
            }
        } else {
            totals.below_threshold = totals.below_threshold.saturating_add(1);
        }
        self.totals = totals;
        self.current = None;
        if presented {
            self.pending = None;
        }
    }
}

/// Marks a boundary of the open frame.
pub fn frame_mark(trace: &mut FrameTrace, mark: FrameMark, now: u128)
    ensures
        final(trace)@ == (match old(trace)@.current {
            Some(current) => Traced {
                current: Some(
                    FrameSample {
                        marks: current.marks.marked(mark, now),
                        viewport_calls: if mark is ViewportBegin {
                            plus(current.viewport_calls, 1)
                        } else {
                            current.viewport_calls
                        },
                        ..current
                    },
                ),
                ..old(trace)@
            },
            None => old(trace)@,
        }),
{
    if let Some(current) = trace.current {
        let mut sample = current;
        if matches!(mark, FrameMark::ViewportBegin) {
            sample.viewport_calls = sample.viewport_calls.saturating_add(1);
        }
        sample.marks.mark(mark, now);
        trace.current = Some(sample);
    }
}

/// Notes an input batch that the open frame dequeued.
pub fn trace_dequeued(trace: &mut FrameTrace, admission: u128, exporting: bool, now: u128)
    ensures
        final(trace)@ == old(trace)@.dequeued(admission, exporting, now),
{
    let current = match trace.current {
        Some(current) => current,
        None => {
            trace.totals.unframed_dequeues = trace.totals.unframed_dequeues.saturating_add(1);
            return ;
        },
    };
    let mut pending = match trace.pending {
        Some(pending) => pending,
        None => TraceInput {
            admission,
            first_dequeue: now,
            last_dequeue: now,
            first_batch: current.id,
            batches: 0,
            exporting_at_first_dequeue: exporting,
            crossed_control_boundary: current.control_boundary,
        },
    };
    if admission < pending.admission {
        pending.admission = admission;
    }
    pending.last_dequeue = now;
    pending.batches = pending.batches.saturating_add(1);
    trace.pending = Some(pending);
    trace.current = Some(
        FrameSample { dequeues: current.dequeues.saturating_add(1), ..current },
    );
}

/// Every closed frame is counted as presented, skipped or control only, and
/// either kept, omitted or below the threshold.
pub proof fn every_frame_is_counted_once(trace: Traced, now: u128)
    requires
        trace.wf(),
        trace.current is Some,
        trace.totals.presented < u64::MAX,
        trace.totals.skipped < u64::MAX,
        trace.totals.control_only < u64::MAX,
        trace.totals.omitted < u64::MAX,
        trace.totals.below_threshold < u64::MAX,
    ensures
        ({
            let after = trace.batch_ended(now);
            &&& after.totals.presented + after.totals.skipped + after.totals.control_only
                == trace.totals.presented + trace.totals.skipped + trace.totals.control_only + 1
            &&& after.samples.len() + after.totals.omitted + after.totals.below_threshold
                == trace.samples.len() + trace.totals.omitted + trace.totals.below_threshold + 1
            &&& after.current is None
            &&& after.wf()
        }),
{
}

} // verus!
