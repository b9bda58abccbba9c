//! The fixed workload of performance runs.
use vstd::prelude::*;

use crate::document::CanvasSpec;
use crate::input::{PointerPhase, StylusSample};
use crate::probes::ProbeReading;

verus! {

pub const STROKES: u32 = 32;

pub const INTERVAL_NS: u64 = 4_166_667;

pub const LAST_SAMPLE: u32 = 120;

/// The pressure of the workload, in hundredths.
pub const WORKLOAD_PRESSURE: u8 = 100;

pub open spec fn workload_page() -> CanvasSpec {
    CanvasSpec { width_px: 3840, height_px: 2160, pixels_per_inch: 96 }
}

/// The page of the workload.
pub fn canvas() -> (r: CanvasSpec)
    ensures
        r == workload_page(),
{
    CanvasSpec { width_px: 3840, height_px: 2160, pixels_per_inch: 96 }
}

/// A sample of the workload, at full pressure: straight strokes, one below the
/// other.
pub fn sample(stroke: u32, index: u32) -> (r: StylusSample<ProbeReading>)
    requires
        240 + 28 * index <= u32::MAX,
        128 + 50 * stroke <= u32::MAX,
    ensures
        r.sequence == stroke * 121 + index + 1,
        r.timestamp_ns == r.sequence * INTERVAL_NS,
        r.device_id == u64::MAX - 100,
        r.phase == (if index == 0 {
            PointerPhase::Begin
        } else if index == LAST_SAMPLE {
            PointerPhase::End
        } else {
            PointerPhase::Move
        }),
        r.reading.x == 240 + 28 * index,
        r.reading.y == 128 + 50 * stroke,
        r.reading.pressure_hundredths == WORKLOAD_PRESSURE,
        !r.eraser,
        r.viewport_revision == 0,
{
    let sequence: u64 = stroke as u64 * 121 + index as u64 + 1;
    let phase = if index == 0 {
        PointerPhase::Begin
    } else if index == LAST_SAMPLE {
        PointerPhase::End
    } else {
        PointerPhase::Move
    };
    StylusSample {
        sequence,
        timestamp_ns: sequence * INTERVAL_NS,
        device_id: u64::MAX - 100,
        phase,
        eraser: false,
        viewport_revision: 0,
        reading: ProbeReading {
            x: 240 + 28 * index,
            y: 128 + 50 * stroke,
            pressure_hundredths: WORKLOAD_PRESSURE,
        },
    }
}

/// The moment at which a sample is due after the start of its stroke.
pub fn due_ns(index: u32) -> (r: u64)
    ensures
        r == index * INTERVAL_NS,
{
    index as u64 * INTERVAL_NS
}

/// The workload numbers its samples without a gap, over all strokes.
pub proof fn workload_sequences_are_contiguous(stroke: int, index: int)
    requires
        0 <= stroke,
        0 <= index <= LAST_SAMPLE,
    ensures
        index < LAST_SAMPLE ==> stroke * 121 + (index + 1) + 1 == (stroke * 121 + index + 1) + 1,
        index == LAST_SAMPLE ==> (stroke + 1) * 121 + 0 + 1 == (stroke * 121 + index + 1) + 1,
{
}

} // verus!
