//! Strokes in progress, closed strokes and the display operations they cause.
use vstd::prelude::*;

use crate::document::{LayerId, Rgba};
use crate::drawing::BrushPreset;
use crate::input::StylusSample;
use crate::stroke_pipeline::Selection;

verus! {

#[derive(Clone, Copy, Debug, PartialEq, Eq, Structural)]
pub enum LiveStrokeDisposition {
    Commit,
    Cancel,
}

/// One operation on the live preview.
#[derive(Clone, Debug, PartialEq, Eq)]
pub enum GpuStrokeOp<D> {
    Replace { generation: u64, layer: LayerId, color: Rgba, eraser: bool, alpha_locked: bool },
    Dabs { generation: u64, dabs: Vec<D> },
    Finish { generation: u64, disposition: LiveStrokeDisposition },
}

/// The mathematical content of a [`GpuStrokeOp`].
pub enum GpuOp<D> {
    Replace { generation: u64, layer: LayerId, color: Rgba, eraser: bool, alpha_locked: bool },
    Dabs { generation: u64, dabs: Seq<D> },
    Finish { generation: u64, disposition: LiveStrokeDisposition },
}

impl<D> View for GpuStrokeOp<D> {
    type V = GpuOp<D>;

    open spec fn view(&self) -> GpuOp<D> {
        match *self {
            GpuStrokeOp::Replace { generation, layer, color, eraser, alpha_locked } =>
                GpuOp::Replace { generation, layer, color, eraser, alpha_locked },
            GpuStrokeOp::Dabs { generation, dabs } => GpuOp::Dabs { generation, dabs: dabs@ },
            GpuStrokeOp::Finish { generation, disposition } => GpuOp::Finish {
                generation,
                disposition,
            },
        }
    }
}

/// The operations of a list.
pub open spec fn gpu_view<D>(ops: Seq<GpuStrokeOp<D>>) -> Seq<GpuOp<D>> {
    ops.map_values(|op: GpuStrokeOp<D>| op@)
}

/// `ops` with dabs added at the end: to the last operation where that draws
/// for the same stroke, else as a new one. No dabs, no operation.
pub open spec fn with_dabs<D>(ops: Seq<GpuOp<D>>, generation: u64, dabs: Seq<D>) -> Seq<GpuOp<D>> {
    if dabs.len() == 0 {
        ops
    } else {
        match ops.last() {
            GpuOp::Dabs { generation: last, dabs: before } => if ops.len() > 0 && last
                == generation {
                ops.drop_last().push(GpuOp::Dabs { generation, dabs: before + dabs })
            } else {
                ops.push(GpuOp::Dabs { generation, dabs })
            },
            _ => ops.push(GpuOp::Dabs { generation, dabs }),
        }
    }
}

pub fn append_gpu_dabs<D>(
    operations: &mut Vec<GpuStrokeOp<D>>,
    generation: u64,
    scratch: &mut Vec<D>,
)
    ensures
        gpu_view(final(operations)@) == with_dabs(
            gpu_view(old(operations)@),
            generation,
            old(scratch)@,
        ),
        final(scratch)@.len() == 0,
{
    if scratch.len() == 0 {
        return ;
    }
    let ghost before = operations@;
    let ghost added = scratch@;
    let mut batch: Vec<D> = Vec::new();
    match operations.pop() {
        Some(GpuStrokeOp::Dabs { generation: last, dabs }) => {
            assert(gpu_view(before).last() == (GpuStrokeOp::Dabs { generation: last, dabs })@);
            if last == generation {
                batch = dabs;
                batch.append(scratch);
            } else {
                operations.push(GpuStrokeOp::Dabs { generation: last, dabs });
                assert(operations@ =~= before);
                batch.append(scratch);
            }
        },
        Some(other) => {
            assert(gpu_view(before).last() == other@);
            operations.push(other);
            assert(operations@ =~= before);
            batch.append(scratch);
        },
        None => {
            batch.append(scratch);
        },
    }
    operations.push(GpuStrokeOp::Dabs { generation, dabs: batch });
    proof {
        assert(gpu_view(operations@.drop_last()) =~= gpu_view(operations@).drop_last());
        assert(gpu_view(operations@) =~= with_dabs(gpu_view(before), generation, added));
    }
}

/// A stroke between its `Begin` and its end.
#[derive(Clone, Debug, PartialEq, Eq)]
pub struct LiveStroke<P> {
    pub generation: u64,
    pub layer: LayerId,
    /// Where this stroke's operations start in the pending list.
    pub gpu_op_start: usize,
    pub samples: Vec<StylusSample<P>>,
    /// The most samples that one recorded stroke may hold.
    pub sample_limit: usize,
    pub sample_limit_exceeded: bool,
    pub brush: BrushPreset,
    pub color: Rgba,
    pub eraser: bool,
    pub alpha_locked: bool,
    /// The selection that held at the `Begin`.
    pub selection: Option<Selection>,
}

/// The mathematical content of a [`LiveStroke`].
pub struct OpenStroke<P> {
    pub generation: u64,
    pub layer: LayerId,
    pub gpu_op_start: int,
    pub samples: Seq<StylusSample<P>>,
    pub sample_limit: int,
    pub sample_limit_exceeded: bool,
    pub brush: BrushPreset,
    pub color: Rgba,
    pub eraser: bool,
    pub alpha_locked: bool,
    pub selection: Option<Selection>,
}

impl<P> View for LiveStroke<P> {
    type V = OpenStroke<P>;

    open spec fn view(&self) -> OpenStroke<P> {
        OpenStroke {
            generation: self.generation,
            layer: self.layer,
            gpu_op_start: self.gpu_op_start as int,
            samples: self.samples@,
            sample_limit: self.sample_limit as int,
            sample_limit_exceeded: self.sample_limit_exceeded,
            brush: self.brush,
            color: self.color,
            eraser: self.eraser,
            alpha_locked: self.alpha_locked,
            selection: self.selection,
        }
    }
}

impl<P> OpenStroke<P> {
    /// A recorded stroke starts with its `Begin` and respects the limit.
    pub open spec fn wf(self) -> bool {
        0 < self.samples.len() <= self.sample_limit
    }

    /// The sample as the stroke records it: erasing is decided at `Begin`.
    pub open spec fn recorded(self, sample: StylusSample<P>) -> StylusSample<P> {
        StylusSample { eraser: self.eraser, ..sample }
    }

    /// The stroke after one more sample; past the limit only the fact is kept.
    pub open spec fn retaining(self, sample: StylusSample<P>) -> OpenStroke<P> {
        if self.samples.len() < self.sample_limit {
            OpenStroke { samples: self.samples.push(sample), ..self }
        } else {
            OpenStroke { sample_limit_exceeded: true, ..self }
        }
    }
}

impl<P> LiveStroke<P> {
    pub fn retain_sample(&mut self, sample: StylusSample<P>)
        ensures
            final(self)@ == old(self)@.retaining(sample),
            old(self)@.wf() ==> final(self)@.wf(),
    {
        if self.samples.len() < self.sample_limit {
            self.samples.push(sample);
        } else {
            self.sample_limit_exceeded = true;
        }
    }
}

/// A closed stroke on its way to the project. `record` is what the brush
/// engine and the host attach to it.
#[derive(Clone, Debug, PartialEq, Eq)]
pub struct ClosedStrokeRequest<P, A> {
    pub ordinal: u64,
    pub stroke_generation: u64,
    pub layer: LayerId,
    pub samples: Vec<StylusSample<P>>,
    pub brush: BrushPreset,
    pub color: Rgba,
    pub alpha_locked: bool,
    pub selection: Option<Selection>,
    pub end_timestamp_ns: u64,
    pub record: A,
}

/// The mathematical content of a [`ClosedStrokeRequest`].
pub struct ClosedStroke<P, A> {
    pub ordinal: u64,
    pub stroke_generation: u64,
    pub layer: LayerId,
    pub samples: Seq<StylusSample<P>>,
    pub brush: BrushPreset,
    pub color: Rgba,
    pub alpha_locked: bool,
    pub selection: Option<Selection>,
    pub end_timestamp_ns: u64,
    pub record: A,
}

impl<P, A> View for ClosedStrokeRequest<P, A> {
    type V = ClosedStroke<P, A>;

    open spec fn view(&self) -> ClosedStroke<P, A> {
        ClosedStroke {
            ordinal: self.ordinal,
            stroke_generation: self.stroke_generation,
            layer: self.layer,
            samples: self.samples@,
            brush: self.brush,
            color: self.color,
            alpha_locked: self.alpha_locked,
            selection: self.selection,
            end_timestamp_ns: self.end_timestamp_ns,
            record: self.record,
        }
    }
}

impl<P> OpenStroke<P> {
    /// The request that an ended stroke makes.
    pub open spec fn closed<A>(
        self,
        ordinal: u64,
        end_timestamp_ns: u64,
        record: A,
    ) -> ClosedStroke<P, A> {
        ClosedStroke {
            ordinal,
            stroke_generation: self.generation,
            layer: self.layer,
            samples: self.samples,
            brush: self.brush,
            color: self.color,
            alpha_locked: self.alpha_locked,
            selection: self.selection,
            end_timestamp_ns,
            record,
        }
    }
}

} // verus!
