//! Editor commands and the reasons for which they are refused.
use vstd::prelude::*;

verus! {

#[derive(Clone, Copy, Debug, PartialEq, Eq, Structural)]
pub enum CommandRejectReason {
    CommandQueueBusy,
    InvalidLayerMove,
    InvalidLayout,
    InvalidViewport,
    LayerLocked,
    RevisionExhausted,
    StaleProjection { based_on: u64, current: u64 },
    UnknownLayer,
    UnsupportedCommand,
    WorkspaceFailed,
}

} // verus!
