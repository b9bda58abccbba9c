//! Pen input as the native admission lane hands it over.
use vstd::prelude::*;

use crate::document::LayerId;

verus! {

#[derive(Clone, Copy, Debug, PartialEq, Eq, Hash, Structural)]
pub enum PointerPhase {
    Begin,
    Move,
    End,
    Cancel,
}

/// One pen report. The reading (position, pressure, tilt) is carried along
/// without being looked at.
#[derive(Clone, Copy, Debug, PartialEq, Eq)]
pub struct StylusSample<P> {
    pub sequence: u64,
    pub timestamp_ns: u64,
    pub device_id: u64,
    pub phase: PointerPhase,
    pub eraser: bool,
    pub viewport_revision: u64,
    pub reading: P,
}

/// A sample together with what was fixed when it was admitted.
#[derive(Clone, Copy, Debug, PartialEq, Eq)]
pub struct AdmittedSample<P> {
    pub sample: StylusSample<P>,
    /// The layer that was active when a `Begin` was admitted.
    pub begin_layer: Option<LayerId>,
    pub temporary_picker: bool,
    pub picker_epoch: u64,
}

/// The sample that ended a temporary colour pick.
#[derive(Clone, Copy, Debug, PartialEq, Eq, Hash, Structural)]
pub struct PickSequence {
    pub device: u64,
    pub sequence: u64,
}

impl<P> StylusSample<P> {
    pub open spec fn pick(self) -> PickSequence {
        PickSequence { device: self.device_id, sequence: self.sequence }
    }

    pub fn pick_sequence(&self) -> (r: PickSequence)
        ensures
            r == self.pick(),
    {
        PickSequence { device: self.device_id, sequence: self.sequence }
    }
}

} // verus!
