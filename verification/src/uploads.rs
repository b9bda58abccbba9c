//! One pass over the tiles of a saved stroke: which replace the preview now,
//! and which wait.
use std::collections::VecDeque;

use vstd::prelude::*;

use crate::document::LayerId;
use crate::frame_trace::MaterializedTrace;
use crate::materialized::{
    decide_upload, remaining_upload, upload_finished, DeferredTileUpload, UploadDecision,
    UploadOutcome,
};
use crate::tile_map::{TileEntry, TileKey, TileMap};

verus! {

/// The tiles of one saved stroke on their way to the scene.
pub struct UploadPass {
    pub ordinal: u64,
    pub stroke_generation: u64,
    /// Tiles that were not looked at yet.
    pub tiles: VecDeque<TileEntry<Vec<u8>>>,
    /// Tiles that have to wait.
    pub remaining: Vec<TileEntry<Vec<u8>>>,
}

/// The mathematical content of an [`UploadPass`].
#[verifier::ext_equal]
pub struct PassState {
    pub ordinal: u64,
    pub stroke_generation: u64,
    pub tiles: Seq<TileEntry<Vec<u8>>>,
    pub remaining: Seq<TileEntry<Vec<u8>>>,
}

impl View for UploadPass {
    type V = PassState;

    open spec fn view(&self) -> PassState {
        PassState {
            ordinal: self.ordinal,
            stroke_generation: self.stroke_generation,
            tiles: self.tiles@,
            remaining: self.remaining@,
        }
    }
}

/// The scene as far as a pass looks at it: the strokes whose previews are
/// shown, and the layer with a live one.
pub struct Shown {
    pub latest: Map<TileKey, u64>,
    pub active_layer: Option<LayerId>,
}

impl PassState {
    pub open spec fn decision(self, shown: Shown, tile: TileEntry<Vec<u8>>) -> UploadDecision {
        crate::materialized::upload_decision(
            shown.latest,
            shown.active_layer,
            tile.key,
            self.stroke_generation,
        )
    }

    /// Tiles are looked at in order. Superseded ones are dropped and waiting
    /// ones kept, up to the first that can be uploaded.
    pub open spec fn advanced(self, shown: Shown, trace: MaterializedTrace) -> (
        PassState,
        Option<TileEntry<Vec<u8>>>,
        MaterializedTrace,
    )
        decreases self.tiles.len(),
    {
        if self.tiles.len() == 0 {
            (self, None, trace)
        } else {
            let tile = self.tiles.first();
            let rest = PassState { tiles: self.tiles.drop_first(), ..self };
            match self.decision(shown, tile) {
                UploadDecision::Superseded => rest.advanced(shown, trace),
                UploadDecision::Wait => PassState {
                    remaining: self.remaining.push(tile),
                    ..rest
                }.advanced(shown, trace.deferring()),
                UploadDecision::Upload => (rest, Some(tile), trace.attempting()),
            }
        }
    }
}

impl UploadPass {
    pub fn new(upload: DeferredTileUpload) -> (r: Self)
        ensures
            r@ == (PassState {
                ordinal: upload.ordinal,
                stroke_generation: upload.stroke_generation,
                tiles: upload.tiles@,
                remaining: Seq::empty(),
            }),
    {
        let DeferredTileUpload { ordinal, stroke_generation, tiles } = upload;
        let ghost all = tiles@;
        let mut left = tiles;
        let mut queue: VecDeque<TileEntry<Vec<u8>>> = VecDeque::new();
        assert(left@ + queue@ =~= all);
        while left.len() > 0
            invariant
                left@ + queue@ == all,
            decreases left@.len(),
        {
            let ghost before = left@ + queue@;
            if let Some(tile) = left.pop() {
                queue.push_front(tile);
                assert(left@ + queue@ =~= before);
            }
        }
        assert(queue@ =~= all);
        UploadPass { ordinal, stroke_generation, tiles: queue, remaining: Vec::new() }
    }

    /// The next tile for the scene. The host uploads it and reports what came
    /// of it.
    pub fn next(
        &mut self,
        latest: &TileMap<u64>,
        active_layer: Option<LayerId>,
        trace: &mut MaterializedTrace,
    ) -> (r: Option<TileEntry<Vec<u8>>>)
        requires
            latest.wf(),
        ensures
            (final(self)@, r, *final(trace)) == old(self)@.advanced(
                Shown { latest: latest@, active_layer },
                *old(trace),
            ),
    {
        let ghost shown = Shown { latest: latest@, active_layer };
        let ghost goal = self@.advanced(shown, *trace);
        while self.tiles.len() > 0
            invariant
                latest.wf(),
                shown == (Shown { latest: latest@, active_layer }),
                self@.advanced(shown, *trace) == goal,
                goal == old(self)@.advanced(shown, *old(trace)),
            decreases self.tiles@.len(),
        {
            let ghost before = self@;
            if let Some(tile) = self.tiles.pop_front() {
                assert(self@.tiles =~= before.tiles.drop_first());
                match decide_upload(latest, active_layer, tile.key, self.stroke_generation) {
                    UploadDecision::Superseded => {},
                    UploadDecision::Wait => {
                        trace.add_deferred();
                        self.remaining.push(tile);
                    },
                    UploadDecision::Upload => {
                        trace.add_upload_attempt();
                        return Some(tile);
                    },
                }
            }
        }
        None
    }

    /// Takes what the scene made of a tile.
    pub fn uploaded(
        &mut self,
        latest: &mut TileMap<u64>,
        tile: TileEntry<Vec<u8>>,
        outcome: UploadOutcome,
        trace: &mut MaterializedTrace,
    )
        requires
            old(latest).wf(),
        ensures
            final(latest).wf(),
            final(latest)@ == crate::materialized::after_upload(
                old(latest)@,
                tile.key,
                old(self)@.stroke_generation,
                outcome,
            ),
            final(self)@ == (if outcome is LiveStrokeActive {
                PassState { remaining: old(self)@.remaining.push(tile), ..old(self)@ }
            } else {
                old(self)@
            }),
            *final(trace) == (match outcome {
                UploadOutcome::Uploaded => old(trace).succeeding(),
                UploadOutcome::LiveStrokeActive => old(trace).deferring(),
                UploadOutcome::Failed => *old(trace),
            }),
    {
        if upload_finished(latest, tile.key, self.stroke_generation, outcome) {
            trace.add_deferred();
            self.remaining.push(tile);
        } else if outcome == UploadOutcome::Uploaded {
            trace.add_upload_success();
        }
    }

    /// What waits for the next frame, once every tile was looked at.
    pub fn finish(self) -> (r: Option<DeferredTileUpload>)
        ensures
            match r {
                Some(deferred) => {
                    &&& self@.remaining.len() > 0
                    &&& deferred.ordinal == self@.ordinal
                    &&& deferred.stroke_generation == self@.stroke_generation
                    &&& deferred.tiles@ == self@.remaining
                },
                None => self@.remaining.len() == 0,
            },
    {
        remaining_upload(self.ordinal, self.stroke_generation, self.remaining)
    }
}

/// A pass loses no tile: each is superseded, waits, goes to the scene now, or
/// is still to be looked at.
pub proof fn every_tile_is_accounted_for(
    pass: PassState,
    shown: Shown,
    trace: MaterializedTrace,
    tile: TileEntry<Vec<u8>>,
)
    requires
        pass.tiles.contains(tile) || pass.remaining.contains(tile),
    ensures
        ({
            let (after, handed, _) = pass.advanced(shown, trace);
            ||| pass.decision(shown, tile) is Superseded
            ||| after.remaining.contains(tile)
            ||| handed == Some(tile)
            ||| after.tiles.contains(tile)
        }),
    decreases pass.tiles.len(),
{
    if pass.tiles.len() > 0 {
        let first = pass.tiles.first();
        let rest = PassState { tiles: pass.tiles.drop_first(), ..pass };
        if pass.tiles.contains(tile) && tile != first {
            let i = choose|i: int| 0 <= i < pass.tiles.len() && pass.tiles[i] == tile;
            assert(rest.tiles[i - 1] == tile);
        }
        match pass.decision(shown, first) {
            UploadDecision::Superseded => {
                if tile != first || pass.remaining.contains(tile) {
                    every_tile_is_accounted_for(rest, shown, trace, tile);
                }
            },
            UploadDecision::Wait => {
                let kept = PassState { remaining: pass.remaining.push(first), ..rest };
                if pass.remaining.contains(tile) {
                    let i = choose|i: int|
                        0 <= i < pass.remaining.len() && pass.remaining[i] == tile;
                    assert(kept.remaining[i] == tile);
                }
                if tile == first {
                    assert(kept.remaining.last() == tile);
                }
                every_tile_is_accounted_for(kept, shown, trace.deferring(), tile);
            },
            UploadDecision::Upload => {},
        }
    }
}

/// Nothing is handed to the scene for a layer that shows a live stroke, nor
/// below the preview of a newer one.
pub proof fn handed_tiles_are_free(pass: PassState, shown: Shown, trace: MaterializedTrace)
    ensures
        pass.advanced(shown, trace).1 matches Some(tile) ==> {
            &&& shown.active_layer != Some(tile.key.layer)
            &&& shown.latest.dom().contains(tile.key) ==> shown.latest[tile.key]
                <= pass.stroke_generation
        },
    decreases pass.tiles.len(),
{
    if pass.tiles.len() > 0 {
        let tile = pass.tiles.first();
        let rest = PassState { tiles: pass.tiles.drop_first(), ..pass };
        match pass.decision(shown, tile) {
            UploadDecision::Superseded => handed_tiles_are_free(rest, shown, trace),
            UploadDecision::Wait => handed_tiles_are_free(
                PassState { remaining: pass.remaining.push(tile), ..rest },
                shown,
                trace.deferring(),
            ),
            UploadDecision::Upload => {},
        }
    }
}

} // verus!
