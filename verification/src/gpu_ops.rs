//! The live preview on the display: which operations reach it and which tiles
//! it still hides.
use vstd::prelude::*;

use crate::document::{LayerId, Rgba};
use crate::page_tiles::{paint_dirty_tiles, SignedDirtyRect};
use crate::stroke::{GpuOp, GpuStrokeOp, LiveStrokeDisposition};
use crate::stroke_pipeline::{PipelineState, StrokePipeline};
use crate::tile_map::{TileKey, TileMap};

verus! {

/// The stroke that the scene currently previews.
#[derive(Clone, Copy, Debug, PartialEq, Eq, Structural)]
pub struct LivePreview {
    pub generation: u64,
    pub layer: LayerId,
    pub eraser: bool,
    pub alpha_locked: bool,
}

/// The display's side of the live strokes: the previewed one, and for each
/// tile the latest generation drawn on it.
pub struct GpuState {
    pub live: Option<LivePreview>,
    pub latest_preview: TileMap<u64>,
    pub batches: u64,
}

/// The mathematical content of a [`GpuState`].
pub struct PreviewState {
    pub live: Option<LivePreview>,
    pub latest: Map<TileKey, u64>,
    pub batches: u64,
}

impl View for GpuState {
    type V = PreviewState;

    open spec fn view(&self) -> PreviewState {
        PreviewState { live: self.live, latest: self.latest_preview@, batches: self.batches }
    }
}

#[derive(Clone, Copy, Debug, PartialEq, Eq, Structural)]
pub enum Painter {
    Normal,
    AlphaLocked,
    Eraser,
}

/// What an operation asks of the scene.
#[derive(Clone, Copy, Debug, PartialEq, Eq, Structural)]
pub enum GpuAction {
    Skip,
    /// Start previewing on this layer. Painters take the colour unless the
    /// stroke erases.
    Replace { layer: LayerId, paint_color: Option<Rgba> },
    ApplyDabs(Painter),
    Finish(LiveStrokeDisposition),
}

/// The tiles after `generation` was drawn on those of the list.
pub open spec fn drawn_on(latest: Map<TileKey, u64>, keys: Seq<TileKey>, generation: u64) -> Map<
    TileKey,
    u64,
>
    decreases keys.len(),
{
    if keys.len() == 0 {
        latest
    } else {
        drawn_on(latest, keys.drop_last(), generation).insert(keys.last(), generation)
    }
}

impl PreviewState {
    /// What an operation asks of the scene in this state.
    pub open spec fn action<D>(self, op: GpuOp<D>) -> GpuAction {
        match op {
            GpuOp::Replace { generation, layer, color, eraser, alpha_locked } =>
                GpuAction::Replace { layer, paint_color: if eraser { None } else { Some(color) } },
            GpuOp::Dabs { generation, dabs } => match self.live {
                Some(live) => if live.generation == generation {
                    GpuAction::ApplyDabs(
                        if live.eraser {
                            Painter::Eraser
                        } else if live.alpha_locked {
                            Painter::AlphaLocked
                        } else {
                            Painter::Normal
                        },
                    )
                } else {
                    GpuAction::Skip
                },
                None => GpuAction::Skip,
            },
            GpuOp::Finish { generation, disposition } => match self.live {
                Some(live) => if live.generation == generation {
                    GpuAction::Finish(disposition)
                } else {
                    GpuAction::Skip
                },
                None => GpuAction::Skip,
            },
        }
    }

    pub open spec fn replaced(self, next: LivePreview, cancelled: bool) -> PreviewState {
        PreviewState {
            live: Some(next),
            latest: match self.live {
                Some(previous) => if cancelled {
                    crate::tile_map::without_value(self.latest, previous.generation)
                } else {
                    self.latest
                },
                None => self.latest,
            },
            ..self
        }
    }

    pub open spec fn finished(self, generation: u64, disposition: LiveStrokeDisposition) -> PreviewState {
        PreviewState {
            live: None,
            latest: if disposition is Cancel {
                crate::tile_map::without_value(self.latest, generation)
            } else {
                self.latest
            },
            ..self
        }
    }

    /// No tile hides a preview any more.
    pub open spec fn forgotten(self) -> PreviewState {
        PreviewState { latest: Map::empty(), ..self }
    }

    /// The scene failed: the stroke it previewed leaves no trace.
    pub open spec fn failed(self, generation: u64, had_token: bool) -> PreviewState {
        let failed_generation = match self.live {
            Some(live) => live.generation,
            None => generation,
        };
        PreviewState {
            live: None,
            latest: if had_token || self.live is Some {
                crate::tile_map::without_value(self.latest, failed_generation)
            } else {
                self.latest
            },
            ..self
        }
    }
}

impl GpuState {
    pub open spec fn wf(&self) -> bool {
        self.latest_preview.wf()
    }

    pub fn new() -> (r: Self)
        ensures
            r.wf(),
            r@ == (PreviewState { live: None, latest: Map::empty(), batches: 0 }),
    {
        GpuState { live: None, latest_preview: TileMap::new(), batches: 0 }
    }

    /// What the next operation asks of the scene. Operations of a stroke that
    /// is not previewed are skipped.
    pub fn plan<D>(&self, op: &GpuStrokeOp<D>) -> (r: GpuAction)
        ensures
            r == self@.action(op@),
    {
        match op {
            GpuStrokeOp::Replace { layer, color, eraser, .. } => GpuAction::Replace {
                layer: *layer,
                paint_color: if *eraser {
                    None
                } else {
                    Some(*color)
                },
            },
            GpuStrokeOp::Dabs { generation, .. } => match self.live {
                Some(live) => {
                    if live.generation != *generation {
                        GpuAction::Skip
                    } else if live.eraser {
                        GpuAction::ApplyDabs(Painter::Eraser)
                    } else if live.alpha_locked {
                        GpuAction::ApplyDabs(Painter::AlphaLocked)
                    } else {
                        GpuAction::ApplyDabs(Painter::Normal)
                    }
                },
                None => GpuAction::Skip,
            },
            GpuStrokeOp::Finish { generation, disposition } => match self.live {
                Some(live) => {
                    if live.generation != *generation {
                        GpuAction::Skip
                    } else {
                        GpuAction::Finish(*disposition)
                    }
                },
                None => GpuAction::Skip,
            },
        }
    }

    /// The scene previews a new stroke; `cancelled` says that it dropped an
    /// older one for it.
    pub fn stroke_replaced(&mut self, next: LivePreview, cancelled: bool)
        requires
            old(self).wf(),
        ensures
            final(self).wf(),
            final(self)@ == old(self)@.replaced(next, cancelled),
    {
        if let Some(previous) = self.live {
            if cancelled {
                self.latest_preview.drop_value(previous.generation);
            }
        }
        self.live = Some(next);
    }

    /// The scene drew dabs of the previewed stroke on a dirty rectangle.
    pub fn dabs_applied(&mut self, generation: u64, dirty: Option<SignedDirtyRect>, dab_count: usize)
        requires
            old(self).wf(),
            old(self).live is Some,
            dirty matches Some(rect) ==> rect.addressable(),
        ensures
            final(self).wf(),
            final(self)@.live == old(self)@.live,
            final(self)@.latest == (match dirty {
                Some(rect) => drawn_on(
                    old(self)@.latest,
                    crate::page_tiles::tile_block(
                        old(self)@.live->0.layer,
                        rect.first_column(),
                        rect.columns(),
                        rect.first_row(),
                        rect.rows(),
                    ),
                    generation,
                ),
                None => old(self)@.latest,
            }),
            final(self)@.batches == (if dab_count > 0 {
                crate::stroke_pipeline::saturating_next(old(self)@.batches)
            } else {
                old(self)@.batches
            }),
    {
        let layer = match self.live {
            Some(live) => live.layer,
            None => {
                return ;
            },
        };
        if let Some(rect) = dirty {
            let keys = paint_dirty_tiles(layer, rect);
            let ghost start = self.latest_preview@;
            let mut index: usize = 0;
            assert(keys@.take(0) =~= Seq::empty());
            while index < keys.len()
                invariant
                    index <= keys@.len(),
                    self.wf(),
                    self.live == old(self).live,
                    self.batches == old(self).batches,
                    self.latest_preview@ == drawn_on(start, keys@.take(index as int), generation),
                decreases keys@.len() - index,
            {
                assert(keys@.take(index + 1).drop_last() =~= keys@.take(index as int));
                self.latest_preview.insert(keys[index], generation);
                index = index + 1;
            }
            assert(keys@.take(index as int) =~= keys@);
        }
        if dab_count > 0 {
            self.batches = self.batches.saturating_add(1);
        }
    }

    /// The scene finished the previewed stroke.
    pub fn stroke_finished(&mut self, generation: u64, disposition: LiveStrokeDisposition)
        requires
            old(self).wf(),
        ensures
            final(self).wf(),
            final(self)@ == old(self)@.finished(generation, disposition),
    {
        self.live = None;
        if disposition == LiveStrokeDisposition::Cancel {
            self.latest_preview.drop_value(generation);
        }
    }

    /// The scene shows a whole snapshot: what was drawn on its tiles before no
    /// longer counts.
    pub fn forget_previews(&mut self)
        ensures
            final(self).wf(),
            final(self)@ == old(self)@.forgotten(),
    {
        self.latest_preview = TileMap::new();
    }

    /// The scene failed on an operation of `generation`. `had_token` says that
    /// a live stroke was known to the scene.
    pub fn fail_gpu_transaction(&mut self, generation: u64, had_token: bool)
        requires
            old(self).wf(),
        ensures
            final(self).wf(),
            final(self)@ == old(self)@.failed(generation, had_token),
    {
        let failed_generation: u64 = match self.live {
            Some(live) => live.generation,
            None => generation,
        };
        if had_token || self.live.is_some() {
            self.latest_preview.drop_value(failed_generation);
        }
        self.live = None;
    }
}

/// Which operation the scene failed on.
#[derive(Clone, Copy, Debug, PartialEq, Eq, Structural)]
pub enum GpuStage {
    Begin,
    Apply,
    Finish,
}

impl GpuStage {
    /// The workspace error, before the scene's own words.
    pub fn lead(self) -> (r: &'static str)
        ensures
            r@ == (match self {
                GpuStage::Begin =>
                    "GPU live stroke failed at begin; drawing input was quarantined: "@,
                GpuStage::Apply =>
                    "GPU live stroke failed at apply; drawing input was quarantined: "@,
                GpuStage::Finish =>
                    "GPU live stroke failed at finish; drawing input was quarantined: "@,
            }),
    {
        match self {
            GpuStage::Begin => "GPU live stroke failed at begin; drawing input was quarantined: ",
            GpuStage::Apply => "GPU live stroke failed at apply; drawing input was quarantined: ",
            GpuStage::Finish => "GPU live stroke failed at finish; drawing input was quarantined: ",
        }
    }
}

impl<P: Copy, D, A> StrokePipeline<P, D, A> {
    /// Hands the pending operations over. What a stroke adds from now on
    /// starts a new list.
    pub fn take_gpu_ops(&mut self) -> (r: Vec<GpuStrokeOp<D>>)
        ensures
            crate::stroke::gpu_view(r@) == old(self)@.gpu_ops,
            final(self)@ == (PipelineState {
                gpu_ops: Seq::empty(),
                active: match old(self)@.active {
                    Some(active) => Some(
                        crate::stroke::OpenStroke { gpu_op_start: 0, ..active },
                    ),
                    None => None,
                },
                ..old(self)@
            }),
            old(self)@.wf() ==> final(self)@.wf(),
    {
        let mut operations: Vec<GpuStrokeOp<D>> = Vec::new();
        core::mem::swap(&mut operations, &mut self.gpu_ops);
        if let Some(mut active) = self.active.take() {
            active.gpu_op_start = 0;
            self.active = Some(active);
        }
        assert(self@.gpu_ops =~= Seq::empty());
        operations
    }

    /// The display failed: input is quarantined and nothing more is drawn.
    pub fn quarantine_after_gpu_failure(&mut self)
        ensures
            final(self)@ == (PipelineState {
                gpu_ops: Seq::empty(),
                ..old(self)@.failed_closed()
            }),
    {
        self.fail_closed();
        self.gpu_ops.clear();
        assert(self@.gpu_ops =~= Seq::empty());
    }
}

/// Operations of a stroke that is not the previewed one never reach the scene.
pub proof fn stale_operations_are_skipped<D>(state: PreviewState, op: GpuOp<D>, generation: u64)
    requires
        op matches GpuOp::Dabs { generation: g, dabs } ==> g == generation,
        op matches GpuOp::Finish { generation: g, disposition } ==> g == generation,
        !(op is Replace),
        state.live matches Some(live) ==> live.generation != generation,
    ensures
        state.action(op) is Skip,
{
}

/// A cancelled preview leaves none of its tiles behind.
pub proof fn cancelled_previews_leave_no_tiles(
    state: PreviewState,
    generation: u64,
    key: TileKey,
)
    ensures
        state.finished(generation, LiveStrokeDisposition::Cancel).latest.dom().contains(key)
            ==> state.finished(generation, LiveStrokeDisposition::Cancel).latest[key] != generation,
        state.finished(generation, LiveStrokeDisposition::Commit).latest == state.latest,
{
}

} // verus!
