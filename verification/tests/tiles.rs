use std::collections::VecDeque;

use nyatidraw_desktop::commits::{changed_layers, closed_tiles, stroke_thumbnail_layers};
use nyatidraw_desktop::document::{CanvasSpec, LayerId};
use nyatidraw_desktop::frame_trace::{AdoptionStart, MaterializedCounters, MaterializedTrace};
use nyatidraw_desktop::layer_command::LayerPixelChange;
use nyatidraw_desktop::layer_tree::default_layer_tree;
use nyatidraw_desktop::materialized::{
    adopt_materialized_completions, decide_upload, remaining_upload, upload_finished,
    ClosedStrokeCompletion, DeferredTileUpload, UploadDecision, UploadOutcome,
};
use nyatidraw_desktop::page_tiles::{
    opaque_white_layer_tiles, paint_dirty_tiles, PixelChangeError, SignedDirtyRect,
};
use nyatidraw_desktop::tile_map::{TileEntry, TileKey, TileMap};
use nyatidraw_desktop::transform_display::{
    adopt_transform, display_after, transform_upload_keys, DisplayFailure,
};
use nyatidraw_desktop::uploads::UploadPass;
use nyatidraw_desktop::tiles::{CpuSnapshotAdoption, TILE_BYTE_LEN, TILE_EDGE};

const LIVE_LAYER: LayerId = LayerId(1);

fn key(layer: u128, x: i32, y: i32) -> TileKey {
    TileKey { layer: LayerId(layer), mip: 0, x, y }
}

fn key_of_pixel(layer: LayerId, x: i32, y: i32) -> TileKey {
    TileKey { layer, mip: 0, x: x.div_euclid(128), y: y.div_euclid(128) }
}

fn page(width_px: u32, height_px: u32) -> CanvasSpec {
    CanvasSpec { width_px, height_px, pixels_per_inch: 96 }
}

fn contents(map: &TileMap<Vec<u8>>) -> Vec<(TileKey, Vec<u8>)> {
    (0..map.len()).map(|index| (map.key_at(index), map.value_at(index).clone())).collect()
}

fn map_of(entries: &[(TileKey, u8)]) -> TileMap<Vec<u8>> {
    let mut map = TileMap::new();
    for (key, value) in entries {
        map.insert(*key, vec![*value; TILE_BYTE_LEN]);
    }
    map
}

#[test]
fn white_raster_cannot_overwrite_other_layers_or_leak_beyond_page_edges() {
    for (width_px, height_px, layer) in
        [(1, 1, LayerId(101)), (128, 128, LayerId(203)), (129, 257, LayerId(999))]
    {
        let mut snapshot: TileMap<Vec<u8>> = TileMap::new();
        opaque_white_layer_tiles(page(width_px, height_px), layer, &mut snapshot);
        let mut white_pixels = 0_u64;
        for (key, tile) in contents(&snapshot) {
            assert_eq!(key.layer, layer);
            assert_eq!(key.mip, 0);
            let origin_x = u32::try_from(key.x).unwrap() * TILE_EDGE;
            let origin_y = u32::try_from(key.y).unwrap() * TILE_EDGE;
            for (index, pixel) in tile.chunks_exact(4).enumerate() {
                let x = origin_x + u32::try_from(index).unwrap() % TILE_EDGE;
                let y = origin_y + u32::try_from(index).unwrap() / TILE_EDGE;
                if x < width_px && y < height_px {
                    assert_eq!(pixel, [255; 4]);
                    white_pixels += 1;
                } else {
                    assert_eq!(pixel, [0; 4]);
                }
            }
        }
        assert_eq!(white_pixels, u64::from(width_px) * u64::from(height_px));
    }
}

#[test]
fn white_layers_leave_the_other_layers_alone() {
    let mut tiles = map_of(&[(key(7, 0, 0), 9), (key(7, -3, 2), 8)]);
    opaque_white_layer_tiles(page(130, 2), LayerId(5), &mut tiles);
    assert_eq!(tiles.len(), 4);
    assert_eq!(tiles.get(key(7, 0, 0)), Some(&vec![9; TILE_BYTE_LEN]));
    assert_eq!(tiles.get(key(7, -3, 2)), Some(&vec![8; TILE_BYTE_LEN]));
    let edge = tiles.get(key(5, 1, 0)).unwrap();
    assert_eq!(&edge[..12], &[255, 255, 255, 255, 255, 255, 255, 255, 0, 0, 0, 0]);
    assert_eq!(&edge[512..520], &[255; 8]);
    assert_eq!(&edge[1024..1028], &[0; 4]);
}

#[test]
fn deferred_gpu_work_cannot_recopy_or_roll_back_durable_tiles_and_history() {
    for fresh_count in 0_u64..=2 {
        let key = TileKey { layer: LIVE_LAYER, mip: 0, x: -1, y: 2 };
        let mut cpu = map_of(&[(key, 1)]);
        let mut pending = vec![DeferredTileUpload {
            ordinal: 1,
            stroke_generation: 1,
            tiles: vec![TileEntry { key, value: vec![1; TILE_BYTE_LEN] }],
        }];
        let fresh: VecDeque<ClosedStrokeCompletion<bool>> = (2..2 + fresh_count)
            .map(|generation| ClosedStrokeCompletion {
                ordinal: generation,
                stroke_generation: generation,
                tiles: vec![TileEntry {
                    key,
                    value: vec![u8::try_from(generation).unwrap(); TILE_BYTE_LEN],
                }],
                history: Some(generation == 3),
            })
            .collect();
        let mut trace = MaterializedTrace {
            started: Some(AdoptionStart { at: 0, frame: 0 }),
            counts: MaterializedCounters::none(),
        };
        let history = adopt_materialized_completions(&mut cpu, &mut pending, fresh, &mut trace);
        assert_eq!(trace.counts.cpu_clones, fresh_count);
        assert_eq!(trace.counts.cpu_bytes, fresh_count * TILE_BYTE_LEN as u64);
        assert_eq!(
            cpu.get(key),
            Some(&vec![u8::try_from(1 + fresh_count).unwrap(); TILE_BYTE_LEN])
        );
        assert_eq!(history, (fresh_count != 0).then_some(fresh_count == 2));
        assert_eq!(
            pending.iter().map(|upload| upload.stroke_generation).collect::<Vec<_>>(),
            (1..=1 + fresh_count).collect::<Vec<_>>()
        );

        let before = contents(&cpu);
        let copied_before = trace.counts.cpu_clones;
        assert!(adopt_materialized_completions::<bool>(
            &mut cpu,
            &mut pending,
            VecDeque::new(),
            &mut trace
        )
        .is_none());
        assert_eq!(contents(&cpu), before);
        assert_eq!(trace.counts.cpu_clones, copied_before);
        assert_eq!(pending.first().unwrap().tiles[0].value, vec![1; TILE_BYTE_LEN]);
    }
}

#[test]
fn cpu_snapshot_adoption_cannot_retain_deleted_artwork_or_lose_restored_layers() {
    let signed = key_of_pixel(LayerId(1), -129, -1);
    let retained = key_of_pixel(LayerId(2), 0, 0);
    let restored = key_of_pixel(LayerId(3), 129, 129);
    let mut cache: TileMap<Vec<u8>> = TileMap::new();
    for (entries, changed_keys, all_keys) in [
        (
            vec![(signed, 16), (retained, 32), (restored, 64)],
            vec![signed, retained, restored],
            vec![signed, retained, restored],
        ),
        (
            vec![(signed, 24), (retained, 32)],
            vec![signed, restored],
            vec![signed, retained, restored],
        ),
        (
            vec![(retained, 32), (restored, 64)],
            vec![signed, restored],
            vec![signed, retained, restored],
        ),
        (vec![], vec![retained, restored], vec![retained, restored]),
    ] {
        let snapshot = map_of(&entries);
        let adoption = CpuSnapshotAdoption::new(&cache, &snapshot);
        assert_eq!(
            adoption.upload_keys(false),
            changed_keys,
            "surviving surfaces must receive every changed or deleted tile"
        );
        assert_eq!(
            adoption.upload_keys(true),
            all_keys,
            "recreated surfaces must also receive unchanged artwork"
        );
        adoption.apply(&mut cache, &snapshot);
        assert_eq!(
            contents(&cache),
            contents(&snapshot),
            "renderer cache must equal all authoritative pixels"
        );
    }
}

#[test]
fn adoption_counts_what_it_leaves_out() {
    let cache = map_of(&[(key(1, 0, 0), 1), (key(1, 1, 0), 2), (key(1, 2, 0), 3)]);
    let snapshot = map_of(&[(key(1, 0, 0), 1), (key(1, 1, 0), 2), (key(1, 2, 0), 4)]);
    let adoption = CpuSnapshotAdoption::new(&cache, &snapshot);
    assert_eq!(adoption.upload_keys(false), vec![key(1, 2, 0)]);
    assert_eq!(adoption.retained(false), 2);
    assert_eq!(adoption.retained(true), 0);
}

#[test]
fn tile_maps_keep_their_keys_in_order() {
    let mut map: TileMap<u64> = TileMap::new();
    for (index, at) in [key(2, 0, 0), key(1, 5, 5), key(1, -1, 9), key(1, 5, -5)]
        .into_iter()
        .enumerate()
    {
        map.insert(at, index as u64);
    }
    map.insert(key(1, 5, 5), 10);
    let keys: Vec<TileKey> = (0..map.len()).map(|index| map.key_at(index)).collect();
    assert_eq!(keys, vec![key(1, -1, 9), key(1, 5, -5), key(1, 5, 5), key(2, 0, 0)]);
    assert_eq!(map.get(key(1, 5, 5)), Some(&10));
    assert_eq!(map.get(key(3, 0, 0)), None);
    map.remove(key(1, -1, 9));
    map.remove(key(9, 9, 9));
    assert_eq!(map.len(), 3);
    map.insert(key(4, 0, 0), 10);
    map.drop_value(10);
    assert_eq!(map.len(), 2);
    map.clear();
    assert_eq!(map.len(), 0);
}

#[test]
fn older_strokes_wait_for_or_yield_to_newer_previews() {
    let mut latest: TileMap<u64> = TileMap::new();
    let tile = key(4, 1, 1);
    latest.insert(tile, 7);
    assert_eq!(decide_upload(&latest, None, tile, 6), UploadDecision::Superseded);
    assert_eq!(decide_upload(&latest, None, tile, 7), UploadDecision::Upload);
    assert_eq!(decide_upload(&latest, Some(LayerId(4)), tile, 7), UploadDecision::Wait);
    assert_eq!(decide_upload(&latest, Some(LayerId(5)), tile, 7), UploadDecision::Upload);
    assert_eq!(decide_upload(&latest, None, key(4, 2, 1), 1), UploadDecision::Upload);
    assert!(upload_finished(&mut latest, tile, 7, UploadOutcome::LiveStrokeActive));
    assert_eq!(latest.get(tile), Some(&7));
    assert!(!upload_finished(&mut latest, tile, 7, UploadOutcome::Uploaded));
    assert_eq!(latest.get(tile), None);
}

#[test]
fn only_waiting_tiles_stay_pending() {
    assert_eq!(remaining_upload(3, 4, Vec::new()), None);
    let tiles = vec![TileEntry { key: key(1, 0, 0), value: vec![1; 4] }];
    assert_eq!(
        remaining_upload(3, 4, tiles.clone()),
        Some(DeferredTileUpload { ordinal: 3, stroke_generation: 4, tiles })
    );
}

#[test]
fn duplicated_layers_take_only_free_places() {
    let tiles = map_of(&[(key(1, 0, 0), 5), (key(1, 2, -1), 6), (key(2, 0, 0), 7)]);
    let change = LayerPixelChange::Duplicate { source: LayerId(1), destination: LayerId(3) };
    let copied = change.apply(tiles, page(10, 10)).unwrap();
    assert_eq!(copied.len(), 5);
    assert_eq!(copied.get(key(3, 0, 0)), Some(&vec![5; TILE_BYTE_LEN]));
    assert_eq!(copied.get(key(3, 2, -1)), Some(&vec![6; TILE_BYTE_LEN]));
    let taken = LayerPixelChange::Duplicate { source: LayerId(1), destination: LayerId(2) };
    let error = taken.apply(copied, page(10, 10)).unwrap_err();
    assert_eq!(error, PixelChangeError::DestinationTaken);
}

#[test]
fn white_pixel_changes_fill_the_page() {
    let white = LayerPixelChange::White(LayerId(8));
    let tiles = white.apply(map_of(&[]), page(3, 1)).unwrap();
    assert_eq!(tiles.len(), 1);
    let tile = tiles.get(key(8, 0, 0)).unwrap();
    assert_eq!(&tile[..16], &[255, 255, 255, 255, 255, 255, 255, 255, 255, 255, 255, 255, 0, 0, 0, 0]);
}

#[test]
fn dirty_rectangles_name_every_touched_tile() {
    let dirty = SignedDirtyRect { min_x: -1, min_y: 127, max_x: 129, max_y: 129 };
    let keys = paint_dirty_tiles(LayerId(6), dirty);
    assert_eq!(
        keys,
        vec![key(6, -1, 0), key(6, 0, 0), key(6, 1, 0), key(6, -1, 1), key(6, 0, 1), key(6, 1, 1)]
    );
}

#[test]
fn upload_passes_keep_what_waits() {
    let mut latest: TileMap<u64> = TileMap::new();
    latest.insert(key(1, 0, 0), 9);
    latest.insert(key(1, 1, 0), 4);
    let tile = |key: TileKey| TileEntry { key, value: vec![7; 4] };
    let mut pass = UploadPass::new(DeferredTileUpload {
        ordinal: 2,
        stroke_generation: 4,
        tiles: vec![
            tile(key(1, 0, 0)),
            tile(key(2, 0, 0)),
            tile(key(1, 1, 0)),
            tile(key(1, 2, 0)),
            tile(key(1, 3, 0)),
        ],
    });
    let mut trace = MaterializedTrace {
        started: Some(AdoptionStart { at: 0, frame: 0 }),
        counts: MaterializedCounters::none(),
    };
    let live = Some(LayerId(2));
    let first = pass.next(&latest, live, &mut trace).unwrap();
    assert_eq!(first.key, key(1, 1, 0));
    pass.uploaded(&mut latest, first, UploadOutcome::Uploaded, &mut trace);
    assert_eq!(latest.get(key(1, 1, 0)), None);
    let second = pass.next(&latest, live, &mut trace).unwrap();
    pass.uploaded(&mut latest, second, UploadOutcome::LiveStrokeActive, &mut trace);
    let third = pass.next(&latest, live, &mut trace).unwrap();
    pass.uploaded(&mut latest, third, UploadOutcome::Failed, &mut trace);
    assert_eq!(pass.next(&latest, live, &mut trace), None);
    assert_eq!(
        pass.finish(),
        Some(DeferredTileUpload {
            ordinal: 2,
            stroke_generation: 4,
            tiles: vec![tile(key(2, 0, 0)), tile(key(1, 2, 0))],
        })
    );
    assert_eq!(trace.counts.upload_attempts, 3);
    assert_eq!(trace.counts.upload_successes, 1);
    assert_eq!(trace.counts.deferred, 2);
}

#[test]
fn saved_strokes_report_erased_tiles_as_blank() {
    let (kept, erased) = (key(9, 0, 0), key(2, 1, 0));
    let after = map_of(&[(kept, 7), (key(2, 4, 4), 8)]);
    let changed = vec![kept, erased, key(9, 3, 3)];
    let tiles = closed_tiles(&changed, &after);
    assert_eq!(tiles.iter().map(|tile| tile.key).collect::<Vec<_>>(), changed);
    assert_eq!(tiles[0].value, vec![7; TILE_BYTE_LEN]);
    assert_eq!(tiles[1].value, vec![0; TILE_BYTE_LEN]);
    assert_eq!(tiles[2].value, vec![0; TILE_BYTE_LEN]);
    assert_eq!(changed_layers(&changed), vec![LayerId(2), LayerId(9)]);
    assert_eq!(changed_layers(&Vec::new()), Vec::new());
    assert_eq!(stroke_thumbnail_layers(&changed, 1), vec![LayerId(2)]);
    assert_eq!(stroke_thumbnail_layers(&changed, 5), vec![LayerId(2), LayerId(9)]);
}

#[test]
fn drafts_are_shown_without_touching_the_cache() {
    let mut cache = map_of(&[(key(1, 0, 0), 1), (key(1, 5, 0), 2), (key(77, 0, 0), 3)]);
    let draft = map_of(&[(key(1, 0, 0), 9), (key(1, 2, 0), 4)]);
    let next = map_of(&[(key(1, 0, 0), 5)]);
    let tree = default_layer_tree();
    assert_eq!(
        transform_upload_keys(&cache, None, &draft, &tree),
        vec![key(1, 0, 0), key(1, 2, 0), key(1, 5, 0)]
    );
    let before = contents(&cache);
    adopt_transform(&mut cache, &draft, false);
    assert_eq!(contents(&cache), before);
    let shown = display_after(draft, true);
    assert_eq!(
        transform_upload_keys(&cache, shown.as_ref(), &next, &tree),
        vec![key(1, 0, 0), key(1, 2, 0), key(1, 5, 0)]
    );
    adopt_transform(&mut cache, &next, true);
    assert_eq!(contents(&cache), contents(&next));
    assert!(display_after(next, false).is_none());
    assert_eq!(DisplayFailure::Pixels.lead(), "Transform display pixels: ");
}
