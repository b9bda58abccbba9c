//! White pages, duplicated layers and the tiles under a dirty rectangle.
use vstd::prelude::*;

use crate::document::{CanvasSpec, LayerId};
use crate::layer_command::LayerPixelChange;
use crate::tile_map::{TileKey, TileMap};
use crate::tiles::{TILE_BYTE_LEN, TILE_EDGE};

verus! {

/// How many tiles cover an extent.
pub open spec fn tiles_across(extent: u32) -> int {
    (extent + 127) / 128
}

/// Byte `i` of the tile at column `x` and row `y` lies on the page.
pub open spec fn on_page(canvas: CanvasSpec, x: int, y: int, i: int) -> bool {
    x * 128 + (i % 512) / 4 < canvas.width_px && y * 128 + i / 512 < canvas.height_px
}

/// Opaque white within the page, transparent beyond its edges.
pub open spec fn white_tile(canvas: CanvasSpec, x: int, y: int) -> Seq<u8> {
    Seq::new(
        TILE_BYTE_LEN as nat,
        |i: int| if on_page(canvas, x, y, i) { 255u8 } else { 0u8 },
    )
}

/// The tiles of a white layer.
pub open spec fn white_layer(canvas: CanvasSpec, layer: LayerId) -> Map<TileKey, Seq<u8>> {
    Map::new(
        |key: TileKey|
            key.layer == layer && key.mip == 0 && 0 <= key.x < tiles_across(canvas.width_px) && 0
                <= key.y < tiles_across(canvas.height_px),
        |key: TileKey| white_tile(canvas, key.x as int, key.y as int),
    )
}

fn make_white_tile(canvas: CanvasSpec, x: u32, y: u32) -> (r: Vec<u8>)
    requires
        x < tiles_across(canvas.width_px),
        y < tiles_across(canvas.height_px),
    ensures
        r@ == white_tile(canvas, x as int, y as int),
{
    let left: u32 = x * TILE_EDGE;
    let top: u32 = y * TILE_EDGE;
    let width: usize = if canvas.width_px - left < TILE_EDGE {
        (canvas.width_px - left) as usize
    } else {
        TILE_EDGE as usize
    };
    let height: usize = if canvas.height_px - top < TILE_EDGE {
        (canvas.height_px - top) as usize
    } else {
        TILE_EDGE as usize
    };
    let mut pixels: Vec<u8> = Vec::new();
    let mut index: usize = 0;
    while index < TILE_BYTE_LEN
        invariant
            index <= TILE_BYTE_LEN,
            pixels@.len() == index,
            width <= 128,
            height <= 128,
            width == (if canvas.width_px - x * 128 < 128 {
                canvas.width_px - x * 128
            } else {
                128
            }),
            height == (if canvas.height_px - y * 128 < 128 {
                canvas.height_px - y * 128
            } else {
                128
            }),
            forall|i: int|
                0 <= i < index ==> pixels@[i] == (if on_page(canvas, x as int, y as int, i) {
                    255u8
                } else {
                    0u8
                }),
        decreases TILE_BYTE_LEN - index,
    {
        let column: usize = (index % 512) / 4;
        let row: usize = index / 512;
        pixels.push(
            if column < width && row < height {
                255
            } else {
                0
            },
        );
        index = index + 1;
    }
    assert(pixels@ =~= white_tile(canvas, x as int, y as int));
    pixels
}

fn columns_across(extent: u32) -> (r: u32)
    ensures
        r == tiles_across(extent),
        r <= 33_554_432,
{
    if extent % TILE_EDGE == 0 {
        extent / TILE_EDGE
    } else {
        extent / TILE_EDGE + 1
    }
}

/// Puts a white page into a layer: every tile that the page touches becomes
/// white within the page and transparent beyond it.
pub fn opaque_white_layer_tiles(canvas: CanvasSpec, layer: LayerId, tiles: &mut TileMap<Vec<u8>>)
    requires
        old(tiles).wf(),
    ensures
        final(tiles).wf(),
        crate::tiles::pixel_map(final(tiles)@) == crate::tiles::pixel_map(
            old(tiles)@,
        ).union_prefer_right(white_layer(canvas, layer)),
{
    let ghost start = crate::tiles::pixel_map(tiles@);
    let columns: u32 = columns_across(canvas.width_px);
    let rows: u32 = columns_across(canvas.height_px);
    let ghost target = white_layer(canvas, layer);
    let mut y: u32 = 0;
    while y < rows
        invariant
            y <= rows,
            rows == tiles_across(canvas.height_px),
            columns == tiles_across(canvas.width_px),
            rows <= 33_554_432,
            columns <= 33_554_432,
            tiles.wf(),
            target == white_layer(canvas, layer),
            filled(start, crate::tiles::pixel_map(tiles@), target, |key: TileKey| key.y < y),
        decreases rows - y,
    {
        let mut x: u32 = 0;
        while x < columns
            invariant
                x <= columns,
                y < rows,
                rows == tiles_across(canvas.height_px),
                columns == tiles_across(canvas.width_px),
                rows <= 33_554_432,
                columns <= 33_554_432,
                tiles.wf(),
                target == white_layer(canvas, layer),
                filled(
                    start,
                    crate::tiles::pixel_map(tiles@),
                    target,
                    |key: TileKey| key.y < y || key.y == y && key.x < x,
                ),
            decreases columns - x,
        {
            let key = TileKey { layer, mip: 0, x: x as i32, y: y as i32 };
            let ghost before = crate::tiles::pixel_map(tiles@);
            tiles.insert(key, make_white_tile(canvas, x, y));
            proof {
                let after = crate::tiles::pixel_map(tiles@);
                assert(after =~= before.insert(key, white_tile(canvas, x as int, y as int)));
                assert(target.dom().contains(key));
                assert forall|other: TileKey| #[trigger]
                    after.dom().contains(other) == (start.dom().contains(other)
                    || target.dom().contains(other) && (other.y < y || other.y == y && other.x
                    < x + 1)) by {
                    assert(before.dom().contains(other) == (start.dom().contains(other)
                        || target.dom().contains(other) && (other.y < y || other.y == y && other.x
                        < x)));
                }
                assert forall|other: TileKey| #[trigger] after.dom().contains(other) implies
                    after[other] == (if target.dom().contains(other) && (other.y < y || other.y == y
                    && other.x < x + 1) {
                    target[other]
                } else {
                    start[other]
                }) by {
                    if other != key {
                        assert(before.dom().contains(other));
                    }
                }
            }
            x = x + 1;
        }
        proof {
            let now = crate::tiles::pixel_map(tiles@);
            assert forall|other: TileKey| #[trigger] now.dom().contains(other) == (
            start.dom().contains(other) || target.dom().contains(other) && other.y < y + 1) by {}
        }
        y = y + 1;
    }
    assert(crate::tiles::pixel_map(tiles@) =~= start.union_prefer_right(target));
}

/// `now` is `start` with those tiles of `target` that `done` names.
spec fn filled(
    start: Map<TileKey, Seq<u8>>,
    now: Map<TileKey, Seq<u8>>,
    target: Map<TileKey, Seq<u8>>,
    done: spec_fn(TileKey) -> bool,
) -> bool {
    &&& forall|key: TileKey| #[trigger]
        now.dom().contains(key) == (start.dom().contains(key) || target.dom().contains(key) && done(
            key,
        ))
    &&& forall|key: TileKey| #[trigger]
        now.dom().contains(key) ==> now[key] == (if target.dom().contains(key) && done(key) {
            target[key]
        } else {
            start[key]
        })
}

/// White never reaches another layer, nor a pixel beyond the page, and reaches
/// every pixel of the page.
pub proof fn white_stays_on_its_page(
    canvas: CanvasSpec,
    layer: LayerId,
    before: Map<TileKey, Seq<u8>>,
    key: TileKey,
    i: int,
)
    requires
        before.union_prefer_right(white_layer(canvas, layer)).dom().contains(key),
        0 <= i < TILE_BYTE_LEN,
    ensures
        ({
            let after = before.union_prefer_right(white_layer(canvas, layer));
            &&& key.layer != layer ==> after[key] == before[key]
            &&& key.layer == layer && key.mip == 0 && 0 <= key.x && 0 <= key.y && on_page(
                canvas,
                key.x as int,
                key.y as int,
                i,
            ) ==> after[key][i] == 255
            &&& white_layer(canvas, layer).dom().contains(key) && !on_page(
                canvas,
                key.x as int,
                key.y as int,
                i,
            ) ==> after[key][i] == 0
        }),
{
}

/// Why a layer cannot be duplicated.
#[derive(Clone, Copy, Debug, PartialEq, Eq, Structural)]
pub enum PixelChangeError {
    DestinationTaken,
}

impl PixelChangeError {
    pub fn message(self) -> (r: String)
        ensures
            r@ == "duplicate destination already contains artwork"@,
    {
        "duplicate destination already contains artwork".to_owned()
    }
}

pub open spec fn on_layer(key: TileKey, layer: LayerId) -> TileKey {
    TileKey { layer, ..key }
}

pub open spec fn layer_has_tiles<V>(tiles: Map<TileKey, V>, layer: LayerId) -> bool {
    exists|key: TileKey| #[trigger] tiles.dom().contains(key) && key.layer == layer
}

/// `tiles` with the tiles of `source` repeated on `destination`.
pub open spec fn duplicated(
    tiles: Map<TileKey, Seq<u8>>,
    source: LayerId,
    destination: LayerId,
) -> Map<TileKey, Seq<u8>> {
    Map::new(
        |key: TileKey|
            if key.layer == destination {
                tiles.dom().contains(on_layer(key, source))
            } else {
                tiles.dom().contains(key)
            },
        |key: TileKey|
            if key.layer == destination {
                tiles[on_layer(key, source)]
            } else {
                tiles[key]
            },
    )
}

fn copies_layer(
    tiles: &TileMap<Vec<u8>>,
    source: LayerId,
    destination: LayerId,
) -> (r: TileMap<Vec<u8>>)
    requires
        tiles.wf(),
        source != destination,
        !layer_has_tiles(tiles@, destination),
    ensures
        r.wf(),
        crate::tiles::pixel_map(r@) == duplicated(
            crate::tiles::pixel_map(tiles@),
            source,
            destination,
        ),
{
    let ghost pixels = crate::tiles::pixel_map(tiles@);
    let ghost target = duplicated(pixels, source, destination);
    let mut copy: TileMap<Vec<u8>> = TileMap::new();
    let mut index: usize = 0;
    while index < tiles.len()
        invariant
            index <= tiles.ordered().len(),
            tiles.wf(),
            copy.wf(),
            source != destination,
            pixels == crate::tiles::pixel_map(tiles@),
            target == duplicated(pixels, source, destination),
            !layer_has_tiles(tiles@, destination),
            forall|key: TileKey| #[trigger]
                copy@.dom().contains(key) ==> target.dom().contains(key) && copy@[key]@
                    == target[key],
            forall|i: int|
                0 <= i < index ==> copy@.dom().contains((#[trigger] tiles.ordered()[i]).key),
            forall|i: int|
                0 <= i < index && (#[trigger] tiles.ordered()[i]).key.layer == source
                    ==> copy@.dom().contains(on_layer(tiles.ordered()[i].key, destination)),
        decreases tiles.ordered().len() - index,
    {
        let key = tiles.key_at(index);
        let value = tiles.value_at(index);
        proof {
            tiles.lemma_place_has_key(index as int);
            assert(tiles@.dom().contains(key));
            assert(key.layer != destination);
        }
        let first = value.clone();
        assert(first@ =~= value@);
        copy.insert(key, first);
        if key.layer == source {
            let twin = TileKey { layer: destination, ..key };
            assert(on_layer(twin, source) == key);
            let second = value.clone();
            assert(second@ =~= value@);
            copy.insert(twin, second);
        }
        index = index + 1;
    }
    proof {
        let result = crate::tiles::pixel_map(copy@);
        assert forall|key: TileKey| #[trigger] result.dom().contains(key)
            <==> target.dom().contains(key) by {
            if target.dom().contains(key) {
                if key.layer == destination {
                    let place = tiles.lemma_key_has_place(on_layer(key, source));
                    assert(on_layer(tiles.ordered()[place].key, destination) == key);
                } else {
                    let place = tiles.lemma_key_has_place(key);
                    assert(copy@.dom().contains(tiles.ordered()[place].key));
                }
            }
        }
        assert(result =~= target);
    }
    copy
}

fn has_layer(tiles: &TileMap<Vec<u8>>, layer: LayerId) -> (r: bool)
    requires
        tiles.wf(),
    ensures
        r == layer_has_tiles(tiles@, layer),
{
    let mut index: usize = 0;
    while index < tiles.len()
        invariant
            index <= tiles.ordered().len(),
            tiles.wf(),
            forall|i: int| 0 <= i < index ==> (#[trigger] tiles.ordered()[i]).key.layer != layer,
        decreases tiles.ordered().len() - index,
    {
        let key = tiles.key_at(index);
        if key.layer == layer {
            assert(tiles@.dom().contains(key));
            return true;
        }
        index = index + 1;
    }
    proof {
        if layer_has_tiles(tiles@, layer) {
            let key = choose|key: TileKey| #[trigger]
                tiles@.dom().contains(key) && key.layer == layer;
            let place = tiles.lemma_key_has_place(key);
            assert(tiles.ordered()[place].key.layer != layer);
        }
    }
    false
}

impl LayerPixelChange {
    /// The tiles after the pixel change that accompanies a tree edit.
    pub open spec fn applied(
        self,
        tiles: Map<TileKey, Seq<u8>>,
        canvas: CanvasSpec,
    ) -> Map<TileKey, Seq<u8>> {
        match self {
            LayerPixelChange::White(layer) => tiles.union_prefer_right(white_layer(canvas, layer)),
            LayerPixelChange::Duplicate { source, destination } => duplicated(
                tiles,
                source,
                destination,
            ),
        }
    }

    /// The change has a free destination.
    pub open spec fn fits<V>(self, tiles: Map<TileKey, V>) -> bool {
        match self {
            LayerPixelChange::White(_) => true,
            LayerPixelChange::Duplicate { source, destination } => source != destination
                && !layer_has_tiles(tiles, destination),
        }
    }

    /// Applies the change. Off-page tiles are duplicated like any other.
    pub fn apply(self, tiles: TileMap<Vec<u8>>, canvas: CanvasSpec) -> (r: Result<
        TileMap<Vec<u8>>,
        PixelChangeError,
    >)
        requires
            tiles.wf(),
        ensures
            match r {
                Ok(next) => {
                    &&& self.fits(tiles@)
                    &&& next.wf()
                    &&& crate::tiles::pixel_map(next@) == self.applied(
                        crate::tiles::pixel_map(tiles@),
                        canvas,
                    )
                },
                Err(_) => !self.fits(tiles@),
            },
    {
        match self {
            LayerPixelChange::White(layer) => {
                let mut next = tiles;
                opaque_white_layer_tiles(canvas, layer, &mut next);
                Ok(next)
            },
            LayerPixelChange::Duplicate { source, destination } => {
                if source == destination || has_layer(&tiles, destination) {
                    return Err(PixelChangeError::DestinationTaken);
                }
                Ok(copies_layer(&tiles, source, destination))
            },
        }
    }
}

/// A half-open rectangle of document pixels.
#[derive(Clone, Copy, Debug, PartialEq, Eq, Structural)]
pub struct SignedDirtyRect {
    pub min_x: i64,
    pub min_y: i64,
    pub max_x: i64,
    pub max_y: i64,
}

/// The tile coordinate of a pixel coordinate.
pub open spec fn tile_of(pixel: int) -> int {
    pixel / 128
}

/// The last coordinate before an exclusive end.
pub open spec fn last_before(end: i64) -> int {
    if end > i64::MIN { end - 1 } else { i64::MIN as int }
}

impl SignedDirtyRect {
    pub open spec fn first_column(self) -> int {
        tile_of(self.min_x as int)
    }

    pub open spec fn first_row(self) -> int {
        tile_of(self.min_y as int)
    }

    /// Tile columns that the rectangle touches; not positive where it is empty.
    pub open spec fn columns(self) -> int {
        tile_of(last_before(self.max_x)) - self.first_column() + 1
    }

    pub open spec fn rows(self) -> int {
        tile_of(last_before(self.max_y)) - self.first_row() + 1
    }

    /// The tiles of the rectangle have coordinates that a key can hold.
    pub open spec fn addressable(self) -> bool {
        self.columns() > 0 && self.rows() > 0 ==> {
            &&& i32::MIN <= self.first_column() && self.first_column() + self.columns() - 1
                <= i32::MAX
            &&& i32::MIN <= self.first_row() && self.first_row() + self.rows() - 1 <= i32::MAX
        }
    }
}

/// Tiles `first` up to `count` further along one row.
pub open spec fn tile_row(layer: LayerId, first: int, count: int, y: int) -> Seq<TileKey>
    decreases count,
{
    if count <= 0 {
        Seq::empty()
    } else {
        tile_row(layer, first, count - 1, y).push(
            TileKey { layer, mip: 0, x: (first + count - 1) as i32, y: y as i32 },
        )
    }
}

/// `rows` rows of tiles, row by row.
pub open spec fn tile_block(
    layer: LayerId,
    first_x: int,
    columns: int,
    first_y: int,
    rows: int,
) -> Seq<TileKey>
    decreases rows,
{
    if rows <= 0 {
        Seq::empty()
    } else {
        tile_block(layer, first_x, columns, first_y, rows - 1) + tile_row(
            layer,
            first_x,
            columns,
            first_y + rows - 1,
        )
    }
}

/// The tiles that a dirty rectangle touches, row by row.
pub fn paint_dirty_tiles(layer: LayerId, dirty: SignedDirtyRect) -> (r: Vec<TileKey>)
    requires
        dirty.addressable(),
    ensures
        r@ == tile_block(
            layer,
            dirty.first_column(),
            dirty.columns(),
            dirty.first_row(),
            dirty.rows(),
        ),
{
    let min_x: i64 = euclidean_tile(dirty.min_x);
    let min_y: i64 = euclidean_tile(dirty.min_y);
    let max_x: i64 = euclidean_tile(before_end(dirty.max_x));
    let max_y: i64 = euclidean_tile(before_end(dirty.max_y));
    let mut keys: Vec<TileKey> = Vec::new();
    if min_x > max_x || min_y > max_y {
        proof {
            lemma_empty_block(
                layer,
                dirty.first_column(),
                dirty.columns(),
                dirty.first_row(),
                dirty.rows(),
            );
        }
        return keys;
    }
    let mut y: i64 = min_y;
    while y <= max_y
        invariant
            i32::MIN <= min_x,
            max_x <= i32::MAX,
            min_x <= max_x,
            i32::MIN <= min_y <= y,
            max_y <= i32::MAX,
            y <= max_y + 1,
            keys@ == tile_block(layer, min_x as int, max_x - min_x + 1, min_y as int, y - min_y),
        decreases max_y - y + 1,
    {
        let ghost start = keys@;
        let mut x: i64 = min_x;
        assert(start + tile_row(layer, min_x as int, 0, y as int) =~= start);
        while x <= max_x
            invariant
                i32::MIN <= min_x <= x,
                max_x <= i32::MAX,
                x <= max_x + 1,
                i32::MIN <= y <= i32::MAX,
                keys@ == start + tile_row(layer, min_x as int, x - min_x, y as int),
            decreases max_x - x + 1,
        {
            keys.push(TileKey { layer, mip: 0, x: x as i32, y: y as i32 });
            assert(keys@ =~= start + tile_row(layer, min_x as int, x + 1 - min_x, y as int));
            x = x + 1;
        }
        y = y + 1;
    }
    keys
}

proof fn lemma_empty_block(
    layer: LayerId,
    first_x: int,
    columns: int,
    first_y: int,
    rows: int,
)
    requires
        columns <= 0 || rows <= 0,
    ensures
        tile_block(layer, first_x, columns, first_y, rows).len() == 0,
    decreases rows,
{
    if rows > 0 {
        lemma_empty_block(layer, first_x, columns, first_y, rows - 1);
    }
}

fn before_end(end: i64) -> (r: i64)
    ensures
        r == last_before(end),
{
    if end > i64::MIN {
        end - 1
    } else {
        end
    }
}

fn euclidean_tile(pixel: i64) -> (r: i64)
    ensures
        r == tile_of(pixel as int),
        -72_057_594_037_927_936 <= r <= 72_057_594_037_927_936,
{
    if pixel >= 0 {
        pixel / 128
    } else {
        -((-(pixel + 1)) / 128) - 1
    }
}

proof fn lemma_row_members(layer: LayerId, first: int, count: int, y: int, x: int)
    requires
        first <= x < first + count,
    ensures
        tile_row(layer, first, count, y).contains(
            TileKey { layer, mip: 0, x: x as i32, y: y as i32 },
        ),
    decreases count,
{
    let whole = tile_row(layer, first, count, y);
    let shorter = tile_row(layer, first, count - 1, y);
    if x == first + count - 1 {
        assert(whole[whole.len() - 1] == (TileKey { layer, mip: 0, x: x as i32, y: y as i32 }));
    } else {
        lemma_row_members(layer, first, count - 1, y, x);
        let key = TileKey { layer, mip: 0, x: x as i32, y: y as i32 };
        let place = choose|i: int| 0 <= i < shorter.len() && shorter[i] == key;
        assert(whole[place] == key);
    }
}

proof fn lemma_block_members(
    layer: LayerId,
    first_x: int,
    columns: int,
    first_y: int,
    rows: int,
    x: int,
    y: int,
)
    requires
        first_x <= x < first_x + columns,
        first_y <= y < first_y + rows,
    ensures
        tile_block(layer, first_x, columns, first_y, rows).contains(
            TileKey { layer, mip: 0, x: x as i32, y: y as i32 },
        ),
    decreases rows,
{
    let key = TileKey { layer, mip: 0, x: x as i32, y: y as i32 };
    let front = tile_block(layer, first_x, columns, first_y, rows - 1);
    let row = tile_row(layer, first_x, columns, first_y + rows - 1);
    let whole = tile_block(layer, first_x, columns, first_y, rows);
    if y == first_y + rows - 1 {
        lemma_row_members(layer, first_x, columns, y, x);
        let place = choose|i: int| 0 <= i < row.len() && row[i] == key;
        assert(whole[front.len() + place] == key);
    } else {
        lemma_block_members(layer, first_x, columns, first_y, rows - 1, x, y);
        let place = choose|i: int| 0 <= i < front.len() && front[i] == key;
        assert(whole[place] == key);
    }
}

/// Every dirty pixel lies in a tile of the list.
pub proof fn dirty_tiles_cover_the_rectangle(
    layer: LayerId,
    dirty: SignedDirtyRect,
    x: int,
    y: int,
)
    requires
        dirty.addressable(),
        dirty.min_x <= x < dirty.max_x,
        dirty.min_y <= y < dirty.max_y,
    ensures
        tile_block(
            layer,
            dirty.first_column(),
            dirty.columns(),
            dirty.first_row(),
            dirty.rows(),
        ).contains(TileKey { layer, mip: 0, x: tile_of(x) as i32, y: tile_of(y) as i32 }),
{
    lemma_block_members(
        layer,
        dirty.first_column(),
        dirty.columns(),
        dirty.first_row(),
        dirty.rows(),
        tile_of(x),
        tile_of(y),
    );
}

} // verus!
