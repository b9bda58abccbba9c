//! What the measurements of a thread amount to when it ends.
use vstd::prelude::*;

use crate::frame_trace::{FrameSample, FrameTrace};
use crate::histogram::{Histogram, Observations};
use crate::performance::{HistorySample, Performance, Recorder};

verus! {

/// One line of the histogram report. The slot names the stage and whether an
/// export ran.
#[derive(Clone, Copy, Debug, PartialEq, Eq, Structural)]
pub struct StageLine {
    pub slot: usize,
    pub count: u64,
    pub min: u64,
    pub p50_upper: u64,
    pub p95_upper: u64,
    pub p99_upper: u64,
    pub max: u64,
}

/// One presented move through the history, in microseconds.
#[derive(Clone, Copy, Debug, PartialEq, Eq, Structural)]
pub struct HistoryLine {
    pub sequence: u64,
    pub exporting: bool,
    /// The worker may begin before its admission is stamped.
    pub worker_before_admission: bool,
    pub queue_wait: u128,
    pub prepare: u128,
    pub tile_load: u128,
    pub metadata: u128,
    pub persist: u128,
    pub session_accept: u128,
    pub preview_reply: u128,
    pub worker_total: u128,
    pub reply_wait: u128,
    pub adoption_publish: u128,
    pub after_adoption: u128,
    pub total: u128,
}

pub struct PerformanceReport {
    pub stages: Vec<StageLine>,
    pub input_without_present: bool,
    pub history_queued: u64,
    pub history_adopted: u64,
    pub history_presented: u64,
    pub history: Vec<HistoryLine>,
    pub history_omitted: u64,
}

/// The slots that hold observations, in order.
pub open spec fn used_slots(histograms: Seq<Observations>) -> Seq<int>
    decreases histograms.len(),
{
    if histograms.len() == 0 {
        Seq::empty()
    } else {
        let before = used_slots(histograms.drop_last());
        if histograms.last().count == 0 {
            before
        } else {
            before.push(histograms.len() - 1)
        }
    }
}

pub open spec fn describes(line: StageLine, slot: int, observations: Observations) -> bool {
    &&& line.slot == slot
    &&& line.count == observations.count
    &&& line.min == observations.min
    &&& line.max == observations.max
    &&& observations.bounds_percentile(50, line.p50_upper)
    &&& observations.bounds_percentile(95, line.p95_upper)
    &&& observations.bounds_percentile(99, line.p99_upper)
}

/// Whole microseconds of an interval, rounded up; an end before its start
/// counts as none.
pub open spec fn ceil_micros(begin: u128, end: u128) -> u128 {
    if end > begin { ((end - begin + 999) / 1000) as u128 } else { 0 }
}

fn micros(begin: u128, end: u128) -> (r: u128)
    ensures
        r == ceil_micros(begin, end),
{
    if end <= begin {
        return 0;
    }
    let nanos: u128 = end - begin;
    if nanos % 1000 == 0 {
        nanos / 1000
    } else {
        nanos / 1000 + 1
    }
}

pub open spec fn history_line(sample: HistorySample) -> HistoryLine {
    let at = sample.worker.boundaries@;
    HistoryLine {
        sequence: sample.sequence,
        exporting: sample.exporting,
        worker_before_admission: at[0] < sample.admission,
        queue_wait: ceil_micros(sample.admission, at[0]),
        prepare: ceil_micros(at[0], at[1]),
        tile_load: ceil_micros(at[1], at[2]),
        metadata: ceil_micros(at[2], at[3]),
        persist: ceil_micros(at[3], at[4]),
        session_accept: ceil_micros(at[4], at[5]),
        preview_reply: ceil_micros(at[5], at[6]),
        worker_total: ceil_micros(at[0], at[6]),
        reply_wait: ceil_micros(at[6], sample.received),
        adoption_publish: ceil_micros(sample.received, sample.adopted),
        after_adoption: ceil_micros(sample.adopted, sample.presented),
        total: ceil_micros(sample.admission, sample.presented),
    }
}

impl HistorySample {
    /// The line of a presented move.
    pub fn line(&self) -> (r: HistoryLine)
        ensures
            r == history_line(*self),
    {
        let at = self.worker.boundaries;
        HistoryLine {
            sequence: self.sequence,
            exporting: self.exporting,
            worker_before_admission: at[0] < self.admission,
            queue_wait: micros(self.admission, at[0]),
            prepare: micros(at[0], at[1]),
            tile_load: micros(at[1], at[2]),
            metadata: micros(at[2], at[3]),
            persist: micros(at[3], at[4]),
            session_accept: micros(at[4], at[5]),
            preview_reply: micros(at[5], at[6]),
            worker_total: micros(at[0], at[6]),
            reply_wait: micros(at[6], self.received),
            adoption_publish: micros(self.received, self.adopted),
            after_adoption: micros(self.adopted, self.presented),
            total: micros(self.admission, self.presented),
        }
    }
}

fn stage_line(slot: usize, histogram: &Histogram) -> (r: StageLine)
    requires
        histogram@.wf(),
    ensures
        describes(r, slot as int, histogram@),
{
    StageLine {
        slot,
        count: histogram.count,
        min: histogram.min,
        p50_upper: histogram.percentile_upper(50),
        p95_upper: histogram.percentile_upper(95),
        p99_upper: histogram.percentile_upper(99),
        max: histogram.max,
    }
}

fn stage_lines(recorder: &Recorder) -> (r: Vec<StageLine>)
    requires
        recorder@.wf(),
    ensures
        r@.len() == used_slots(recorder@.histograms).len(),
        forall|k: int|
            0 <= k < r@.len() ==> describes(
                #[trigger] r@[k],
                used_slots(recorder@.histograms)[k],
                recorder@.histograms[used_slots(recorder@.histograms)[k]],
            ),
{
    let ghost all = recorder@.histograms;
    let mut lines: Vec<StageLine> = Vec::new();
    let mut slot: usize = 0;
    assert(all.take(0) =~= Seq::empty());
    while slot < recorder.histograms.len()
        invariant
            slot <= recorder.histograms@.len(),
            recorder@.wf(),
            all == recorder@.histograms,
            lines@.len() == used_slots(all.take(slot as int)).len(),
            forall|k: int|
                0 <= k < lines@.len() ==> describes(
                    #[trigger] lines@[k],
                    used_slots(all.take(slot as int))[k],
                    all[used_slots(all.take(slot as int))[k]],
                ),
        decreases recorder.histograms@.len() - slot,
    {
        let ghost before = used_slots(all.take(slot as int));
        let ghost after = used_slots(all.take(slot + 1));
        assert(all.take(slot + 1).drop_last() =~= all.take(slot as int));
        assert(all[slot as int] == recorder.histograms@[slot as int]@);
        if recorder.histograms[slot].count != 0 {
            lines.push(stage_line(slot, &recorder.histograms[slot]));
            assert(after == before.push(slot as int));
            assert forall|k: int| 0 <= k < lines@.len() implies describes(
                #[trigger] lines@[k],
                after[k],
                all[after[k]],
            ) by {
                if k < before.len() {
                    assert(after[k] == before[k]);
                }
            }
        }
        slot = slot + 1;
    }
    assert(all.take(slot as int) =~= all);
    lines
}

fn history_lines(samples: &Vec<HistorySample>) -> (r: Vec<HistoryLine>)
    ensures
        r@ == samples@.map_values(|sample: HistorySample| history_line(sample)),
{
    let mut lines: Vec<HistoryLine> = Vec::new();
    let mut index: usize = 0;
    while index < samples.len()
        invariant
            index <= samples@.len(),
            lines@.len() == index,
            forall|i: int| 0 <= i < index ==> lines@[i] == history_line(#[trigger] samples@[i]),
        decreases samples@.len() - index,
    {
        lines.push(samples[index].line());
        index = index + 1;
    }
    assert(lines@ =~= samples@.map_values(|sample: HistorySample| history_line(sample)));
    lines
}

/// Takes the measurements of a thread and reports them. Moves through the
/// history are listed only where some were queued.
pub fn flush(performance: &mut Performance) -> (r: Option<PerformanceReport>)
    requires
        old(performance).wf(),
    ensures
        final(performance).recorder is None,
        final(performance).enabled == old(performance).enabled,
        final(performance).exporting == old(performance).exporting,
        match old(performance).recorder {
            None => r is None,
            Some(recorder) => r matches Some(report) && {
                let recorded = recorder@;
                let slots = used_slots(recorded.histograms);
                &&& report.stages@.len() == slots.len()
                &&& forall|k: int|
                    0 <= k < slots.len() ==> describes(
                        #[trigger] report.stages@[k],
                        slots[k],
                        recorded.histograms[slots[k]],
                    )
                &&& report.input_without_present == (recorded.pending_input is Some)
                &&& report.history_queued == recorded.history_queued
                &&& report.history_adopted == recorded.history_adopted
                &&& report.history_presented == recorded.history_presented
                &&& report.history_omitted == recorded.history_samples_omitted
                &&& report.history@ == (if recorded.history_queued > 0 {
                    recorded.history_samples.map_values(
                        |sample: HistorySample| history_line(sample),
                    )
                } else {
                    Seq::empty()
                })
            },
        },
{
    let recorder = match performance.recorder.take() {
        None => {
            return None;
        },
        Some(recorder) => recorder,
    };
    let stages = stage_lines(&recorder);
    let history = if recorder.history_queued > 0 {
        history_lines(&recorder.history_samples)
    } else {
        Vec::new()
    };
    Some(
        PerformanceReport {
            stages,
            input_without_present: recorder.pending_input.is_some(),
            history_queued: recorder.history_queued,
            history_adopted: recorder.history_adopted,
            history_presented: recorder.history_presented,
            history,
            history_omitted: recorder.history_samples_omitted,
        },
    )
}

#[derive(Clone, Copy, Debug, PartialEq, Eq, Structural)]
pub enum FrameStatus {
    PresentReturned,
    RenderWithoutPresent,
    ControlOnly,
}

impl FrameStatus {
    pub fn text(self) -> (r: &'static str)
        ensures
            self is PresentReturned ==> r@ == "present-request-returned"@,
            self is RenderWithoutPresent ==> r@ == "render-without-present"@,
            self is ControlOnly ==> r@ == "control-only"@,
    {
        match self {
            FrameStatus::PresentReturned => "present-request-returned",
            FrameStatus::RenderWithoutPresent => "render-without-present",
            FrameStatus::ControlOnly => "control-only",
        }
    }
}

/// Whole microseconds from the wake to a moment; moments before the wake have
/// negative offsets.
pub open spec fn offset_micros(wake: u128, at: u128) -> int {
    if at >= wake { (at - wake) / 1000 } else { -((wake - at) / 1000) }
}

fn signed_offset(wake: u128, at: u128) -> (r: i128)
    ensures
        r == offset_micros(wake, at),
{
    if at >= wake {
        let micros: u128 = (at - wake) / 1000;
        micros as i128
    } else {
        let micros: u128 = (wake - at) / 1000;
        -(micros as i128)
    }
}

fn signed_optional(wake: u128, at: Option<u128>) -> (r: Option<i128>)
    ensures
        match at {
            Some(at) => r matches Some(value) && value == offset_micros(wake, at),
            None => r is None,
        },
{
    match at {
        Some(at) => Some(signed_offset(wake, at)),
        None => None,
    }
}

/// One kept frame. Offsets are microseconds from its wake.
#[derive(Clone, Copy, Debug, PartialEq, Eq, Structural)]
pub struct FrameLine {
    pub status: FrameStatus,
    pub render: Option<i128>,
    pub scene_begin: Option<i128>,
    pub scene_end: Option<i128>,
    pub acquire_begin: Option<i128>,
    pub acquire_end: Option<i128>,
    pub present_begin: Option<i128>,
    pub present_end: Option<i128>,
    pub viewport_begin: Option<i128>,
    pub viewport_end: Option<i128>,
    pub end: i128,
    pub admission: Option<i128>,
    pub first_dequeue: Option<i128>,
    pub last_dequeue: Option<i128>,
    pub admission_to_present: Option<u128>,
    pub materialized_micros: u128,
}

pub open spec fn same_offset(value: Option<i128>, wake: u128, at: Option<u128>) -> bool {
    match at {
        Some(at) => value matches Some(value) && value == offset_micros(wake, at),
        None => value is None,
    }
}

pub open spec fn frame_status(sample: FrameSample) -> FrameStatus {
    if sample.marks.present_end is Some {
        FrameStatus::PresentReturned
    } else if sample.marks.render is Some {
        FrameStatus::RenderWithoutPresent
    } else {
        FrameStatus::ControlOnly
    }
}

impl FrameSample {
    /// The line of a kept frame.
    pub fn line(&self) -> (r: FrameLine)
        ensures
            r.status == frame_status(*self),
            same_offset(r.render, self.wake, self.marks.render),
            same_offset(r.scene_begin, self.wake, self.marks.scene_begin),
            same_offset(r.scene_end, self.wake, self.marks.scene_end),
            same_offset(r.acquire_begin, self.wake, self.marks.acquire_begin),
            same_offset(r.acquire_end, self.wake, self.marks.acquire_end),
            same_offset(r.present_begin, self.wake, self.marks.present_begin),
            same_offset(r.present_end, self.wake, self.marks.present_end),
            same_offset(r.viewport_begin, self.wake, self.marks.viewport_begin),
            same_offset(r.viewport_end, self.wake, self.marks.viewport_end),
            r.end == offset_micros(self.wake, self.end),
            match self.input {
                Some(input) => {
                    &&& same_offset(r.admission, self.wake, Some(input.admission))
                    &&& same_offset(r.first_dequeue, self.wake, Some(input.first_dequeue))
                    &&& same_offset(r.last_dequeue, self.wake, Some(input.last_dequeue))
                    &&& r.admission_to_present == (match self.marks.present_end {
                        Some(end) => Some(
                            if end > input.admission {
                                ((end - input.admission) / 1000) as u128
                            } else {
                                0
                            },
                        ),
                        None => None,
                    })
                },
                None => r.admission is None && r.first_dequeue is None && r.last_dequeue is None
                    && r.admission_to_present is None,
            },
            r.materialized_micros == self.materialized.nanos / 1000,
    {
        let marks = self.marks;
        let status = if marks.present_end.is_some() {
            FrameStatus::PresentReturned
        } else if marks.render.is_some() {
            FrameStatus::RenderWithoutPresent
        } else {
            FrameStatus::ControlOnly
        };
        let (admission, first_dequeue, last_dequeue) = match self.input {
            Some(input) => (
                Some(input.admission),
                Some(input.first_dequeue),
                Some(input.last_dequeue),
            ),
            None => (None, None, None),
        };
        let admission_to_present: Option<u128> = match (self.input, marks.present_end) {
            (Some(input), Some(end)) => Some(
                if end > input.admission {
                    (end - input.admission) / 1000
                } else {
                    0
                },
            ),
            _ => None,
        };
        FrameLine {
            status,
            render: signed_optional(self.wake, marks.render),
            scene_begin: signed_optional(self.wake, marks.scene_begin),
            scene_end: signed_optional(self.wake, marks.scene_end),
            acquire_begin: signed_optional(self.wake, marks.acquire_begin),
            acquire_end: signed_optional(self.wake, marks.acquire_end),
            present_begin: signed_optional(self.wake, marks.present_begin),
            present_end: signed_optional(self.wake, marks.present_end),
            viewport_begin: signed_optional(self.wake, marks.viewport_begin),
            viewport_end: signed_optional(self.wake, marks.viewport_end),
            end: signed_offset(self.wake, self.end),
            admission: signed_optional(self.wake, admission),
            first_dequeue: signed_optional(self.wake, first_dequeue),
            last_dequeue: signed_optional(self.wake, last_dequeue),
            admission_to_present,
            materialized_micros: self.materialized.nanos / 1000,
        }
    }
}

/// Takes the frame trace for its report. While a frame is being traced it
/// stays, so that the frame is still counted.
pub fn flush_frame_trace(trace: &mut Option<FrameTrace>) -> (r: Option<FrameTrace>)
    ensures
        (*old(trace) matches Some(kept) && kept@.current is Some) ==> r is None && *final(trace)
            == *old(trace),
        !(*old(trace) matches Some(kept) && kept@.current is Some) ==> r == *old(trace)
            && *final(trace) is None,
{
    let busy = match &*trace {
        Some(kept) => kept.current.is_some(),
        None => false,
    };
    if busy {
        return None;
    }
    trace.take()
}

/// Every stage with observations is reported exactly once, in order.
pub proof fn every_used_stage_is_reported(histograms: Seq<Observations>)
    ensures
        forall|slot: int|
            0 <= slot < histograms.len() && histograms[slot].count > 0
                ==> #[trigger] used_slots(histograms).contains(slot),
        forall|i: int, j: int|
            0 <= i < j < used_slots(histograms).len() ==> used_slots(histograms)[i] < used_slots(
                histograms,
            )[j],
        forall|i: int|
            0 <= i < used_slots(histograms).len() ==> 0 <= #[trigger] used_slots(histograms)[i]
                < histograms.len() && histograms[used_slots(histograms)[i]].count > 0,
    decreases histograms.len(),
{
    if histograms.len() > 0 {
        let shorter = histograms.drop_last();
        every_used_stage_is_reported(shorter);
        let before = used_slots(shorter);
        let after = used_slots(histograms);
        assert forall|slot: int| 0 <= slot < histograms.len() && histograms[slot].count
            > 0 implies #[trigger] after.contains(slot) by {
            if slot < shorter.len() {
                assert(shorter[slot] == histograms[slot]);
                assert(before.contains(slot));
                let k = choose|k: int| 0 <= k < before.len() && before[k] == slot;
                assert(after[k] == slot);
            } else {
                assert(after[after.len() - 1] == slot);
            }
        }
        assert forall|i: int| 0 <= i < after.len() implies 0 <= #[trigger] after[i]
            < histograms.len() && histograms[after[i]].count > 0 by {
            if i < before.len() {
                assert(after[i] == before[i]);
                assert(shorter[before[i]] == histograms[before[i]]);
            }
        }
        assert forall|i: int, j: int| 0 <= i < j < after.len() implies after[i] < after[j] by {
            assert(after[i] == before[i]);
            if j < before.len() {
                assert(after[j] == before[j]);
            }
        }
    }
}

} // verus!
