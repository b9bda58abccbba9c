//! How closed strokes and layer changes become durable, and what a saved
//! stroke tells the display.
use vstd::prelude::*;

use crate::document::LayerId;
use crate::tile_map::{TileEntry, TileKey, TileMap};
use crate::tiles::tile_or_blank;
use crate::writer::StrokeResult;

verus! {

/// The stages of a closed stroke, in order.
#[derive(Clone, Copy, Debug, PartialEq, Eq, Structural)]
pub enum StrokeStage {
    /// Replay the recorded samples on the artwork.
    Replay,
    /// Write the result to the store.
    Commit,
    /// Let the session go on from the result.
    Accept,
}

#[derive(Clone, Copy, Debug, PartialEq, Eq, Structural)]
pub enum StrokeStep {
    Do(StrokeStage),
    /// The stroke is durable and accepted.
    Saved,
    Failed(StrokeStage),
}

impl StrokeStage {
    pub open spec fn followed_by(self, succeeded: bool) -> StrokeStep {
        if !succeeded {
            StrokeStep::Failed(self)
        } else {
            match self {
                StrokeStage::Replay => StrokeStep::Do(StrokeStage::Commit),
                StrokeStage::Commit => StrokeStep::Do(StrokeStage::Accept),
                StrokeStage::Accept => StrokeStep::Saved,
            }
        }
    }

    /// What follows a finished stage.
    pub fn next(self, succeeded: bool) -> (r: StrokeStep)
        ensures
            r == self.followed_by(succeeded),
    {
        if !succeeded {
            return StrokeStep::Failed(self);
        }
        match self {
            StrokeStage::Replay => StrokeStep::Do(StrokeStage::Commit),
            StrokeStage::Commit => StrokeStep::Do(StrokeStage::Accept),
            StrokeStage::Accept => StrokeStep::Saved,
        }
    }

    /// What precedes the host's message where the stage failed.
    pub fn error_lead(self) -> (r: &'static str)
        ensures
            r@ == (match self {
                StrokeStage::Replay => ""@,
                StrokeStage::Commit => "project:"@,
                StrokeStage::Accept => "session:"@,
            }),
    {
        match self {
            StrokeStage::Replay => "",
            StrokeStage::Commit => "project:",
            StrokeStage::Accept => "session:",
        }
    }

    /// The result of a stroke whose stage failed with the host's message of
    /// this number.
    pub fn failure(self, message: u64) -> (r: StrokeResult)
        ensures
            r == (if self is Replay {
                StrokeResult::ReplayFailed(message)
            } else {
                StrokeResult::CommitFailed(message)
            }),
    {
        match self {
            StrokeStage::Replay => StrokeResult::ReplayFailed(message),
            StrokeStage::Commit | StrokeStage::Accept => StrokeResult::CommitFailed(message),
        }
    }
}

/// The stages of a layer change, in order.
#[derive(Clone, Copy, Debug, PartialEq, Eq, Structural)]
pub enum LayerStage {
    /// Empty the tiles of removed layers.
    EmptyRemoved,
    /// Bring in new pixels.
    ChangePixels,
    /// Prepare the change for the history.
    Prepare,
    /// Write the change and the tree to the store.
    Commit,
    /// Let the session go on from the change.
    Accept,
}

#[derive(Clone, Copy, Debug, PartialEq, Eq, Structural)]
pub enum LayerStep {
    Do(LayerStage),
    /// The change is durable and accepted.
    Saved,
    Failed(LayerStage),
}

/// The stage that makes the pixels of a change, where it brings any.
pub open spec fn pixels_or_prepare(changes_pixels: bool) -> LayerStage {
    if changes_pixels { LayerStage::ChangePixels } else { LayerStage::Prepare }
}

pub open spec fn first_layer_stage(empties: bool, changes_pixels: bool) -> LayerStage {
    if empties { LayerStage::EmptyRemoved } else { pixels_or_prepare(changes_pixels) }
}

impl LayerStage {
    /// The first stage of a change that empties tiles or brings pixels.
    pub fn first(empties: bool, changes_pixels: bool) -> (r: LayerStage)
        ensures
            r == first_layer_stage(empties, changes_pixels),
    {
        if empties {
            LayerStage::EmptyRemoved
        } else if changes_pixels {
            LayerStage::ChangePixels
        } else {
            LayerStage::Prepare
        }
    }

    pub open spec fn followed_by(self, succeeded: bool, changes_pixels: bool) -> LayerStep {
        if !succeeded {
            LayerStep::Failed(self)
        } else {
            match self {
                LayerStage::EmptyRemoved => LayerStep::Do(pixels_or_prepare(changes_pixels)),
                LayerStage::ChangePixels => LayerStep::Do(LayerStage::Prepare),
                LayerStage::Prepare => LayerStep::Do(LayerStage::Commit),
                LayerStage::Commit => LayerStep::Do(LayerStage::Accept),
                LayerStage::Accept => LayerStep::Saved,
            }
        }
    }

    /// What follows a finished stage.
    pub fn next(self, succeeded: bool, changes_pixels: bool) -> (r: LayerStep)
        ensures
            r == self.followed_by(succeeded, changes_pixels),
    {
        if !succeeded {
            return LayerStep::Failed(self);
        }
        match self {
            LayerStage::EmptyRemoved => {
                if changes_pixels {
                    LayerStep::Do(LayerStage::ChangePixels)
                } else {
                    LayerStep::Do(LayerStage::Prepare)
                }
            },
            LayerStage::ChangePixels => LayerStep::Do(LayerStage::Prepare),
            LayerStage::Prepare => LayerStep::Do(LayerStage::Commit),
            LayerStage::Commit => LayerStep::Do(LayerStage::Accept),
            LayerStage::Accept => LayerStep::Saved,
        }
    }

    /// What precedes the host's message where the stage failed.
    pub fn error_lead(self) -> (r: &'static str)
        ensures
            r@ == (match self {
                LayerStage::EmptyRemoved => "subtree tiles: "@,
                LayerStage::ChangePixels => ""@,
                LayerStage::Prepare => "layer history prepare: "@,
                LayerStage::Commit => "layer history commit: "@,
                LayerStage::Accept => "layer history accept: "@,
            }),
    {
        match self {
            LayerStage::EmptyRemoved => "subtree tiles: ",
            LayerStage::ChangePixels => "",
            LayerStage::Prepare => "layer history prepare: ",
            LayerStage::Commit => "layer history commit: ",
            LayerStage::Accept => "layer history accept: ",
        }
    }
}

/// The stages that a stroke went through, with the outcome of each.
pub open spec fn stroke_run(stages: Seq<StrokeStage>, outcomes: Seq<bool>) -> bool {
    &&& stages.len() == outcomes.len()
    &&& stages.len() > 0
    &&& stages[0] is Replay
    &&& forall|i: int|
        0 <= i < stages.len() - 1 ==> (#[trigger] stages[i]).followed_by(outcomes[i])
            == StrokeStep::Do(stages[i + 1])
}

/// A stroke is accepted only after it was replayed and committed; one that is
/// reported as saved has passed all three.
pub proof fn accepted_strokes_are_durable(stages: Seq<StrokeStage>, outcomes: Seq<bool>, at: int)
    requires
        stroke_run(stages, outcomes),
        0 <= at < stages.len(),
        stages[at] is Accept,
    ensures
        at == 2,
        stages[0] is Replay && outcomes[0],
        stages[1] is Commit && outcomes[1],
        stages[at].followed_by(outcomes[at]) is Saved <==> outcomes[at],
{
    assert(at > 0);
    assert(stages[at - 1].followed_by(outcomes[at - 1]) == StrokeStep::Do(stages[at - 1 + 1]));
    assert(stages[at - 1] is Commit);
    assert(at - 1 > 0);
    assert(stages[at - 2].followed_by(outcomes[at - 2]) == StrokeStep::Do(stages[at - 2 + 1]));
    assert(stages[at - 2] is Replay);
    if at - 2 > 0 {
        assert(stages[at - 3].followed_by(outcomes[at - 3]) == StrokeStep::Do(stages[at - 3 + 1]));
    }
}

/// The stages that a layer change went through, with the outcome of each.
pub open spec fn layer_run(
    stages: Seq<LayerStage>,
    outcomes: Seq<bool>,
    empties: bool,
    changes_pixels: bool,
) -> bool {
    &&& stages.len() == outcomes.len()
    &&& stages.len() > 0
    &&& stages[0] == first_layer_stage(empties, changes_pixels)
    &&& forall|i: int|
        0 <= i < stages.len() - 1 ==> (#[trigger] stages[i]).followed_by(outcomes[i], changes_pixels)
            == LayerStep::Do(stages[i + 1])
}

/// A layer change is accepted only after it was prepared and committed, with
/// the pixels that it brings and without those of removed layers.
pub proof fn accepted_layers_are_durable(
    stages: Seq<LayerStage>,
    outcomes: Seq<bool>,
    empties: bool,
    changes_pixels: bool,
    at: int,
)
    requires
        layer_run(stages, outcomes, empties, changes_pixels),
        0 <= at < stages.len(),
        stages[at] is Accept,
    ensures
        at >= 2,
        stages[at - 1] is Commit && outcomes[at - 1],
        stages[at - 2] is Prepare && outcomes[at - 2],
        changes_pixels ==> at >= 3 && stages[at - 3] is ChangePixels && outcomes[at - 3],
        empties ==> stages[0] is EmptyRemoved && outcomes[0],
        stages[at].followed_by(outcomes[at], changes_pixels) is Saved <==> outcomes[at],
{
    assert(at > 0);
    assert(stages[at - 1].followed_by(outcomes[at - 1], changes_pixels) == LayerStep::Do(
        stages[at - 1 + 1],
    ));
    assert(at - 1 > 0);
    assert(stages[at - 2].followed_by(outcomes[at - 2], changes_pixels) == LayerStep::Do(
        stages[at - 2 + 1],
    ));
    if at - 2 > 0 {
        assert(stages[at - 3].followed_by(outcomes[at - 3], changes_pixels) == LayerStep::Do(
            stages[at - 3 + 1],
        ));
    }
    if empties {
        assert(stages[0].followed_by(outcomes[0], changes_pixels) == LayerStep::Do(stages[1]));
    }
}

/// The tiles that a saved stroke reports, in the order of its changes: their
/// pixels after the stroke, and blank ones where it left nothing.
pub fn closed_tiles(changed: &Vec<TileKey>, after: &TileMap<Vec<u8>>) -> (r: Vec<
    TileEntry<Vec<u8>>,
>)
    requires
        after.wf(),
    ensures
        r@.len() == changed@.len(),
        forall|i: int|
            0 <= i < r@.len() ==> (#[trigger] r@[i]).key == changed@[i] && r@[i].value@
                == crate::tiles::pixels_or_blank(crate::tiles::pixel_map(after@), changed@[i]),
{
    let mut tiles: Vec<TileEntry<Vec<u8>>> = Vec::new();
    let mut index: usize = 0;
    while index < changed.len()
        invariant
            index <= changed@.len(),
            after.wf(),
            tiles@.len() == index,
            forall|i: int|
                0 <= i < index ==> (#[trigger] tiles@[i]).key == changed@[i] && tiles@[i].value@
                    == crate::tiles::pixels_or_blank(crate::tiles::pixel_map(after@), changed@[i]),
        decreases changed@.len() - index,
    {
        let key = changed[index];
        let value = tile_or_blank(after, key);
        tiles.push(TileEntry { key, value });
        index = index + 1;
    }
    tiles
}

/// Layers in ascending order, each once.
pub open spec fn layers_rise(layers: Seq<LayerId>) -> bool {
    forall|i: int, j: int|
        0 <= i < j < layers.len() ==> (#[trigger] layers[i]).0 < (#[trigger] layers[j]).0
}

/// One of the tiles belongs to the layer.
pub open spec fn touches(changed: Seq<TileKey>, layer: LayerId) -> bool {
    exists|i: int| 0 <= i < changed.len() && (#[trigger] changed[i]).layer == layer
}

/// Adds a layer at its place, unless it is there.
fn insert_layer(layers: &mut Vec<LayerId>, layer: LayerId)
    requires
        layers_rise(old(layers)@),
    ensures
        layers_rise(final(layers)@),
        forall|other: LayerId| #[trigger]
            final(layers)@.contains(other) <==> other == layer || old(layers)@.contains(other),
{
    let ghost before = layers@;
    let mut place: usize = 0;
    while place < layers.len() && layers[place].0 < layer.0
        invariant
            place <= layers@.len(),
            layers@ == before,
            forall|i: int| 0 <= i < place ==> (#[trigger] before[i]).0 < layer.0,
        decreases layers@.len() - place,
    {
        place = place + 1;
    }
    if place < layers.len() && layers[place].0 == layer.0 {
        assert(before[place as int] == layer);
        return ;
    }
    layers.insert(place, layer);
    proof {
        let after = layers@;
        assert(after =~= before.insert(place as int, layer));
        assert forall|i: int, j: int| 0 <= i < j < after.len() implies (#[trigger] after[i]).0 < (
        #[trigger] after[j]).0 by {
            let source_i = if i < place { i } else { i - 1 };
            let source_j = if j < place { j } else { j - 1 };
            if i == place {
                assert(after[j] == before[source_j]);
                if source_j > place {
                    assert(before[place as int].0 < before[source_j].0);
                }
            } else if j == place {
                assert(after[i] == before[source_i]);
            } else {
                assert(after[i] == before[source_i]);
                assert(after[j] == before[source_j]);
                assert(before[source_i].0 < before[source_j].0);
            }
        }
        assert forall|other: LayerId| #[trigger]
            after.contains(other) <==> other == layer || before.contains(other) by {
            if after.contains(other) {
                let i = choose|i: int| 0 <= i < after.len() && after[i] == other;
                if i != place {
                    assert(before[if i < place { i } else { i - 1 }] == other);
                }
            }
            if before.contains(other) {
                let i = choose|i: int| 0 <= i < before.len() && before[i] == other;
                assert(after[if i < place { i } else { i + 1 }] == other);
            }
            assert(after[place as int] == layer);
        }
    }
}

/// The layers whose thumbnails a saved stroke changes, in ascending order.
pub fn changed_layers(changed: &Vec<TileKey>) -> (r: Vec<LayerId>)
    ensures
        layers_rise(r@),
        forall|layer: LayerId| #[trigger] r@.contains(layer) <==> touches(changed@, layer),
{
    let mut layers: Vec<LayerId> = Vec::new();
    let mut index: usize = 0;
    while index < changed.len()
        invariant
            index <= changed@.len(),
            layers_rise(layers@),
            forall|layer: LayerId| #[trigger]
                layers@.contains(layer) <==> touches(changed@.take(index as int), layer),
        decreases changed@.len() - index,
    {
        let ghost before = layers@;
        let ghost taken = changed@.take(index as int);
        let layer = changed[index].layer;
        insert_layer(&mut layers, layer);
        proof {
            let more = changed@.take(index + 1);
            assert(more =~= taken.push(changed@[index as int]));
            assert forall|other: LayerId| #[trigger]
                layers@.contains(other) <==> touches(more, other) by {
                if touches(more, other) {
                    let i = choose|i: int| 0 <= i < more.len() && (#[trigger] more[i]).layer == other;
                    if i < taken.len() {
                        assert(taken[i].layer == other);
                        assert(before.contains(other));
                    }
                }
                if layers@.contains(other) {
                    if other == layer {
                        assert(more[index as int].layer == other);
                    } else {
                        assert(before.contains(other));
                        let i = choose|i: int|
                            0 <= i < taken.len() && (#[trigger] taken[i]).layer == other;
                        assert(more[i].layer == other);
                    }
                }
            }
        }
        index = index + 1;
    }
    assert(changed@.take(index as int) =~= changed@);
    layers
}

/// The layers whose thumbnails are drawn anew after a saved stroke: those that
/// it changed, the lowest identifiers first, up to the limit.
pub fn stroke_thumbnail_layers(changed: &Vec<TileKey>, limit: usize) -> (r: Vec<LayerId>)
    ensures
        layers_rise(r@),
        r@.len() <= limit,
        forall|layer: LayerId| #[trigger] r@.contains(layer) ==> touches(changed@, layer),
        forall|layer: LayerId|
            touches(changed@, layer) && !(#[trigger] r@.contains(layer)) ==> r@.len() == limit && (
            forall|i: int| 0 <= i < r@.len() ==> (#[trigger] r@[i]).0 < layer.0),
{
    let mut layers = changed_layers(changed);
    let ghost all = layers@;
    layers.truncate(limit);
    proof {
        assert forall|layer: LayerId| #[trigger] layers@.contains(layer) implies touches(
            changed@,
            layer,
        ) by {
            let i = choose|i: int| 0 <= i < layers@.len() && layers@[i] == layer;
            assert(all[i] == layer);
            assert(all.contains(layer));
        }
        assert forall|layer: LayerId|
            touches(changed@, layer) && !(#[trigger] layers@.contains(layer)) implies layers@.len()
            == limit && (forall|i: int|
            0 <= i < layers@.len() ==> (#[trigger] layers@[i]).0 < layer.0) by {
            assert(all.contains(layer));
            let place = choose|i: int| 0 <= i < all.len() && all[i] == layer;
            if place < layers@.len() {
                assert(layers@[place] == layer);
            }
            assert forall|i: int| 0 <= i < layers@.len() implies (#[trigger] layers@[i]).0
                < layer.0 by {
                assert(layers@[i] == all[i]);
                assert(all[i].0 < all[place].0);
            }
        }
    }
    layers
}

} // verus!
