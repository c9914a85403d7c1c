//! The shop's tile map: tile sets and their global tile ids, the tiles that
//! block movement, and the search for routes between tiles.

use std::collections::HashSet;

use pathfinding::prelude::dijkstra;

use vstd::prelude::*;

verus! {

broadcast use vstd::std_specs::hash::group_hash_axioms;

/// A tile set of the map: tiles of one size cut out of one image, numbered
/// with global ids from `first_gid` on, row after row.
pub struct TileSet {
    tile_size: (u32, u32),
    tile_count: (u32, u32),
    first_gid: u32,
    collision_ids: HashSet<u32>,
}

impl TileSet {
    /// The ids of the tile set fit in a `u32`.
    #[verifier::type_invariant]
    spec fn ids_fit(&self) -> bool {
        self.first_gid + self.tile_count.0 * self.tile_count.1 <= u32::MAX
    }

    pub closed spec fn spec_tile_size(&self) -> (u32, u32) {
        self.tile_size
    }

    pub closed spec fn spec_tile_count(&self) -> (u32, u32) {
        self.tile_count
    }

    pub closed spec fn spec_first_gid(&self) -> u32 {
        self.first_gid
    }

    /// The tiles, numbered from `0` within the set, that carry collision shapes.
    pub closed spec fn spec_collision_ids(&self) -> Set<u32> {
        self.collision_ids@
    }

    /// Number of tiles in the set.
    pub open spec fn tile_total(&self) -> int {
        self.spec_tile_count().0 * self.spec_tile_count().1
    }

    /// `gid` is one of the set's global ids.
    pub open spec fn spec_contains_gid(&self, gid: int) -> bool {
        self.spec_first_gid() <= gid < self.spec_first_gid() + self.tile_total()
    }

    /// A tile set with tiles of `tile_size` pixels, `tile_count` tiles across
    /// and down, ids from `first_gid` on, and collision shapes on the tiles
    /// listed in `collision_ids`.
    pub fn new(
        tile_size: (u32, u32),
        tile_count: (u32, u32),
        first_gid: u32,
        collision_ids: Vec<u32>,
    ) -> (r: Self)
        requires
            first_gid + tile_count.0 * tile_count.1 <= u32::MAX,
        ensures
            r.spec_tile_size() == tile_size,
            r.spec_tile_count() == tile_count,
            r.spec_first_gid() == first_gid,
            forall|id: u32| r.spec_collision_ids().contains(id) <==> collision_ids@.contains(id),
    {
        let mut ids: HashSet<u32> = HashSet::new();
        let mut i: usize = 0;
        while i < collision_ids.len()
            invariant
                i <= collision_ids@.len(),
                forall|id: u32| ids@.contains(id) <==> collision_ids@.take(i as int).contains(id),
            decreases collision_ids.len() - i,
        {
            ids.insert(collision_ids[i]);
            proof {
                broadcast use vstd::seq_lib::group_seq_properties;

                assert(collision_ids@.take(i + 1) =~= collision_ids@.take(i as int).push(
                    collision_ids@[i as int],
                ));
            }
            i += 1;
        }
        proof {
            assert(collision_ids@.take(collision_ids@.len() as int) =~= collision_ids@);
        }
        TileSet { tile_size, tile_count, first_gid, collision_ids: ids }
    }

    /// A tile set cut out of an image of `image_size` pixels into tiles of
    /// `tile_size` pixels: as many whole tiles across and down as fit.
    pub fn from_image(
        tile_size: (u32, u32),
        image_size: (u32, u32),
        first_gid: u32,
        collision_ids: Vec<u32>,
    ) -> (r: Self)
        requires
            tile_size.0 > 0,
            tile_size.1 > 0,
            first_gid + (image_size.0 / tile_size.0) * (image_size.1 / tile_size.1) <= u32::MAX,
        ensures
            r.spec_tile_size() == tile_size,
            r.spec_tile_count() == (image_size.0 / tile_size.0, image_size.1 / tile_size.1),
            r.spec_first_gid() == first_gid,
            forall|id: u32| r.spec_collision_ids().contains(id) <==> collision_ids@.contains(id),
    {
        let tile_count = (image_size.0 / tile_size.0, image_size.1 / tile_size.1);
        TileSet::new(tile_size, tile_count, first_gid, collision_ids)
    }

    /// Whether the tile with global id `gid` carries collision shapes.
    pub fn exist_collision_info(&self, gid: u32) -> (r: bool)
        requires
            gid >= self.spec_first_gid(),
        ensures
            r == self.spec_collision_ids().contains((gid - self.spec_first_gid()) as u32),
    {
        let r_gid = gid - self.first_gid;
        self.collision_ids.contains(&r_gid)
    }

    /// Column and row of the tile with global id `gid` in the set's image.
    pub fn gid_to_location_index(&self, gid: u32) -> (r: (u32, u32))
        requires
            gid >= self.spec_first_gid(),
            self.spec_tile_count().0 > 0,
        ensures
            r.0 == (gid - self.spec_first_gid()) % (self.spec_tile_count().0 as int),
            r.1 == (gid - self.spec_first_gid()) / (self.spec_tile_count().0 as int),
    {
        let r_gid = gid - self.first_gid;

        let rows = r_gid / self.tile_count.0;
        let cols = r_gid % self.tile_count.0;

        (cols, rows)
    }

    /// Whether `gid` belongs to the set and the tile numbered `gid` within the
    /// set carries collision shapes.
    pub fn is_collisionable_tile(&self, gid: u32) -> (r: bool)
        ensures
            r == (self.spec_contains_gid(gid as int) && self.spec_collision_ids().contains(gid)),
    {
        self.contains_gid(gid) && self.collision_ids.contains(&gid)
    }

    pub fn total_tile_count(&self) -> (r: u32)
        ensures
            r == self.tile_total(),
    {
        proof {
            use_type_invariant(self);
        }
        self.tile_count.0 * self.tile_count.1
    }

    pub fn contains_gid(&self, gid: u32) -> (r: bool)
        ensures
            r == self.spec_contains_gid(gid as int),
    {
        proof {
            use_type_invariant(self);
        }
        gid >= self.first_gid && gid < self.first_gid + self.total_tile_count()
    }

    pub fn get_first_gid(&self) -> (r: u32)
        ensures
            r == self.spec_first_gid(),
    {
        self.first_gid
    }

    pub fn get_tile_size(&self) -> (r: (u32, u32))
        ensures
            r == self.spec_tile_size(),
    {
        self.tile_size
    }
}

/// The tiles of a tile set that block movement, in order: those that carry
/// at least one collision rectangle.  Each item is a tile's id and the number
/// of rectangles among its collision objects.
pub open spec fn blocking_tiles(tiles: Seq<(u32, usize)>) -> Seq<u32>
    decreases tiles.len(),
{
    if tiles.len() == 0 {
        Seq::empty()
    } else if tiles.last().1 > 0 {
        blocking_tiles(tiles.drop_last()).push(tiles.last().0)
    } else {
        blocking_tiles(tiles.drop_last())
    }
}

/// The ids of the tiles that block movement, as `blocking_tiles` chooses them.
pub fn collision_tile_ids(tiles: &[(u32, usize)]) -> (r: Vec<u32>)
    ensures
        r@ == blocking_tiles(tiles@),
{
    let mut ids: Vec<u32> = Vec::new();
    let mut i: usize = 0;
    while i < tiles.len()
        invariant
            i <= tiles@.len(),
            ids@ == blocking_tiles(tiles@.take(i as int)),
        decreases tiles.len() - i,
    {
        proof {
            assert(tiles@.take(i + 1).drop_last() =~= tiles@.take(i as int));
            assert(tiles@.take(i + 1).last() == tiles@[i as int]);
        }
        if tiles[i].1 > 0 {
            ids.push(tiles[i].0);
        }
        i += 1;
    }
    proof {
        assert(tiles@.take(i as int) =~= tiles@);
    }
    ids
}

/// The answer of `StageObjectMap::is_collisionable_tile` for `gid`, looking at
/// the tile sets from position `i` on: `None` where the id is smaller than the
/// first id of a set that is reached before an answer is found.
pub open spec fn collisionable_from(tilesets: Seq<TileSet>, gid: u32, i: int) -> Option<bool>
    decreases tilesets.len() - i,
{
    if i >= tilesets.len() || i < 0 {
        Some(false)
    } else if gid < tilesets[i].spec_first_gid() {
        None
    } else {
        let r_gid = (gid - tilesets[i].spec_first_gid()) as u32;
        if tilesets[i].spec_contains_gid(r_gid as int) && tilesets[i].spec_collision_ids().contains(
            r_gid,
        ) {
            Some(true)
        } else {
            collisionable_from(tilesets, gid, i + 1)
        }
    }
}

/// One layer of the map: whether it is shown, and the global tile id at each
/// position, row after row (`0` for an empty position).
pub struct TileLayer {
    pub visible: bool,
    pub gids: Vec<Vec<u32>>,
}

/// Every non-empty tile of every shown layer gets an answer from
/// `collisionable_from`.
pub open spec fn layers_answerable(layers: Seq<TileLayer>, tilesets: Seq<TileSet>) -> bool {
    forall|l: int, y: int, x: int|
        0 <= l < layers.len() && layers[l].visible && 0 <= y < layers[l].gids@.len() && 0 <= x
            < layers[l].gids@[y]@.len() && layers[l].gids@[y]@[x] != 0 ==> (#[trigger] collisionable_from(
            tilesets,
            layers[l].gids@[y]@[x],
            0,
        )) is Some
}

/// The tile at `(x, y)` of layer `l`, when it is a non-empty tile of a shown
/// layer, gets an answer from `collisionable_from`.
pub open spec fn answerable_at(
    layers: Seq<TileLayer>,
    tilesets: Seq<TileSet>,
    l: int,
    y: int,
    x: int,
) -> bool {
    0 <= l < layers.len() && layers[l].visible && 0 <= y < layers[l].gids@.len() && 0 <= x
        < layers[l].gids@[y]@.len() && layers[l].gids@[y]@[x] != 0 ==> collisionable_from(
        tilesets,
        layers[l].gids@[y]@[x],
        0,
    ) is Some
}

/// The positions `(x, y)` that block movement in the first `count` layers:
/// layer after layer, row after row, the non-empty tiles of shown layers whose
/// tile carries collision shapes.
pub open spec fn collision_locations(layers: Seq<TileLayer>, tilesets: Seq<TileSet>, count: int) -> Seq<
    (u32, u32),
>
    decreases count,
{
    if count <= 0 {
        Seq::empty()
    } else if !layers[count - 1].visible {
        collision_locations(layers, tilesets, count - 1)
    } else {
        collision_locations(layers, tilesets, count - 1) + layer_collisions(
            layers[count - 1].gids@,
            tilesets,
            layers[count - 1].gids@.len() as int,
        )
    }
}

/// The blocking positions of the first `rows` rows of one layer.
pub open spec fn layer_collisions(gids: Seq<Vec<u32>>, tilesets: Seq<TileSet>, rows: int) -> Seq<
    (u32, u32),
>
    decreases rows,
{
    if rows <= 0 {
        Seq::empty()
    } else {
        layer_collisions(gids, tilesets, rows - 1) + row_collisions(
            gids[rows - 1]@,
            tilesets,
            rows - 1,
            gids[rows - 1]@.len() as int,
        )
    }
}

/// The blocking positions among the first `cols` tiles of row `y`.
pub open spec fn row_collisions(row: Seq<u32>, tilesets: Seq<TileSet>, y: int, cols: int) -> Seq<
    (u32, u32),
>
    decreases cols,
{
    if cols <= 0 {
        Seq::empty()
    } else {
        let x = cols - 1;
        let rest = row_collisions(row, tilesets, y, cols - 1);
        if row[x] != 0 && collisionable_from(tilesets, row[x], 0) == Some(true) {
            rest.push((x as u32, y as u32))
        } else {
            rest
        }
    }
}

/// The position of the first tile set, from position `i` on, that holds `gid`.
pub open spec fn first_tileset_at(tilesets: Seq<TileSet>, gid: u32, i: int) -> Option<int>
    decreases tilesets.len() - i,
{
    if i >= tilesets.len() || i < 0 {
        None
    } else if tilesets[i].spec_contains_gid(gid as int) {
        Some(i)
    } else {
        first_tileset_at(tilesets, gid, i + 1)
    }
}

/// One tile to draw: its map position, its global id, the first id of the tile
/// set it is cut from, and its column and row in that set's image.
#[derive(Debug, Clone, Copy, PartialEq, Eq, Structural)]
pub struct TileDraw {
    pub x: u32,
    pub y: u32,
    pub gid: u32,
    pub first_gid: u32,
    pub column: u32,
    pub row: u32,
}

/// What is drawn for the tile `gid` at `(x, y)`, cut from the first tile set
/// that holds it.
pub open spec fn tile_draw_of(tilesets: Seq<TileSet>, x: int, y: int, gid: u32) -> TileDraw {
    let t = tilesets[first_tileset_at(tilesets, gid, 0).unwrap()];
    let r = gid - t.spec_first_gid();
    TileDraw {
        x: x as u32,
        y: y as u32,
        gid: gid,
        first_gid: t.spec_first_gid(),
        column: (r % (t.spec_tile_count().0 as int)) as u32,
        row: (r / (t.spec_tile_count().0 as int)) as u32,
    }
}

/// Every non-empty tile of every shown layer is held by some tile set.
pub open spec fn layers_drawable(layers: Seq<TileLayer>, tilesets: Seq<TileSet>) -> bool {
    forall|l: int, y: int, x: int|
        0 <= l < layers.len() && layers[l].visible && 0 <= y < layers[l].gids@.len() && 0 <= x
            < layers[l].gids@[y]@.len() && layers[l].gids@[y]@[x] != 0 ==> (#[trigger] first_tileset_at(
            tilesets,
            layers[l].gids@[y]@[x],
            0,
        )) is Some
}

/// The tiles drawn from the first `cols` tiles of row `y`.
pub open spec fn row_draws(row: Seq<u32>, tilesets: Seq<TileSet>, y: int, cols: int) -> Seq<TileDraw>
    decreases cols,
{
    if cols <= 0 {
        Seq::empty()
    } else {
        let x = cols - 1;
        let rest = row_draws(row, tilesets, y, cols - 1);
        if row[x] != 0 {
            rest.push(tile_draw_of(tilesets, x, y, row[x]))
        } else {
            rest
        }
    }
}

/// The tile at `(x, y)` of layer `l`, when it is a non-empty tile of a shown
/// layer, is held by some tile set.
pub open spec fn drawable_at(
    layers: Seq<TileLayer>,
    tilesets: Seq<TileSet>,
    l: int,
    y: int,
    x: int,
) -> bool {
    0 <= l < layers.len() && layers[l].visible && 0 <= y < layers[l].gids@.len() && 0 <= x
        < layers[l].gids@[y]@.len() && layers[l].gids@[y]@[x] != 0 ==> first_tileset_at(
        tilesets,
        layers[l].gids@[y]@[x],
        0,
    ) is Some
}

/// The tiles drawn from the first `rows` rows of one layer.
pub open spec fn layer_draws(gids: Seq<Vec<u32>>, tilesets: Seq<TileSet>, rows: int) -> Seq<TileDraw>
    decreases rows,
{
    if rows <= 0 {
        Seq::empty()
    } else {
        layer_draws(gids, tilesets, rows - 1) + row_draws(
            gids[rows - 1]@,
            tilesets,
            rows - 1,
            gids[rows - 1]@.len() as int,
        )
    }
}

/// The tiles drawn from the first `count` layers: layer after layer, row after
/// row, the non-empty tiles of shown layers.
pub open spec fn tile_draws(layers: Seq<TileLayer>, tilesets: Seq<TileSet>, count: int) -> Seq<TileDraw>
    decreases count,
{
    if count <= 0 {
        Seq::empty()
    } else if !layers[count - 1].visible {
        tile_draws(layers, tilesets, count - 1)
    } else {
        tile_draws(layers, tilesets, count - 1) + layer_draws(
            layers[count - 1].gids@,
            tilesets,
            layers[count - 1].gids@.len() as int,
        )
    }
}

proof fn lemma_contains_in_sum(a: Seq<(u32, u32)>, b: Seq<(u32, u32)>, e: (u32, u32))
    ensures
        (a.contains(e) || b.contains(e)) ==> (a + b).contains(e),
        (a + b).contains(e) ==> (a.contains(e) || b.contains(e)),
{
    if a.contains(e) {
        let j = choose|j: int| 0 <= j < a.len() && a[j] == e;
        assert((a + b)[j] == e);
    } else if b.contains(e) {
        let j = choose|j: int| 0 <= j < b.len() && b[j] == e;
        assert((a + b)[a.len() + j] == e);
    }
    if (a + b).contains(e) {
        let j = choose|j: int| 0 <= j < (a + b).len() && (a + b)[j] == e;
        if j < a.len() {
            assert(a[j] == e);
        } else {
            assert(b[j - a.len()] == e);
        }
    }
}

proof fn lemma_row_collision_found(row: Seq<u32>, tilesets: Seq<TileSet>, y: int, cols: int, x: int)
    requires
        0 <= x < cols,
        row[x] != 0,
        collisionable_from(tilesets, row[x], 0) == Some(true),
    ensures
        row_collisions(row, tilesets, y, cols).contains((x as u32, y as u32)),
    decreases cols,
{
    let rest = row_collisions(row, tilesets, y, cols - 1);
    if x == cols - 1 {
        assert(rest.push((x as u32, y as u32))[rest.len() as int] == (x as u32, y as u32));
    } else {
        lemma_row_collision_found(row, tilesets, y, cols - 1, x);
        let j = choose|j: int| 0 <= j < rest.len() && rest[j] == (x as u32, y as u32);
        if row[cols - 1] != 0 && collisionable_from(tilesets, row[cols - 1], 0) == Some(true) {
            assert(rest.push(((cols - 1) as u32, y as u32))[j] == (x as u32, y as u32));
        }
    }
}

proof fn lemma_layer_collision_found(gids: Seq<Vec<u32>>, tilesets: Seq<TileSet>, rows: int, y: int, x: int)
    requires
        0 <= y < rows <= gids.len(),
        0 <= x < gids[y]@.len(),
        gids[y]@[x] != 0,
        collisionable_from(tilesets, gids[y]@[x], 0) == Some(true),
    ensures
        layer_collisions(gids, tilesets, rows).contains((x as u32, y as u32)),
    decreases rows,
{
    let rest = layer_collisions(gids, tilesets, rows - 1);
    let last = row_collisions(gids[rows - 1]@, tilesets, rows - 1, gids[rows - 1]@.len() as int);
    if y == rows - 1 {
        lemma_row_collision_found(gids[y]@, tilesets, y, gids[y]@.len() as int, x);
    } else {
        lemma_layer_collision_found(gids, tilesets, rows - 1, y, x);
    }
    lemma_contains_in_sum(rest, last, (x as u32, y as u32));
}

proof fn lemma_collision_found(layers: Seq<TileLayer>, tilesets: Seq<TileSet>, count: int, l: int, y: int, x: int)
    requires
        0 <= l < count <= layers.len(),
        layers[l].visible,
        0 <= y < layers[l].gids@.len(),
        0 <= x < layers[l].gids@[y]@.len(),
        layers[l].gids@[y]@[x] != 0,
        collisionable_from(tilesets, layers[l].gids@[y]@[x], 0) == Some(true),
    ensures
        collision_locations(layers, tilesets, count).contains((x as u32, y as u32)),
    decreases count,
{
    let rest = collision_locations(layers, tilesets, count - 1);
    if l == count - 1 {
        let here = layer_collisions(layers[l].gids@, tilesets, layers[l].gids@.len() as int);
        lemma_layer_collision_found(layers[l].gids@, tilesets, layers[l].gids@.len() as int, y, x);
        lemma_contains_in_sum(rest, here, (x as u32, y as u32));
    } else {
        lemma_collision_found(layers, tilesets, count - 1, l, y, x);
        if layers[count - 1].visible {
            let here = layer_collisions(
                layers[count - 1].gids@,
                tilesets,
                layers[count - 1].gids@.len() as int,
            );
            lemma_contains_in_sum(rest, here, (x as u32, y as u32));
        }
    }
}

/// The tile at `(x, y)` of layer `l` is a non-empty tile of a shown layer
/// whose tile carries collision shapes.
pub open spec fn blocking_tile_at(layers: Seq<TileLayer>, tilesets: Seq<TileSet>, l: int, y: int, x: int) -> bool {
    &&& 0 <= l < layers.len()
    &&& layers[l].visible
    &&& 0 <= y < layers[l].gids@.len()
    &&& 0 <= x < layers[l].gids@[y]@.len()
    &&& layers[l].gids@[y]@[x] != 0
    &&& collisionable_from(tilesets, layers[l].gids@[y]@[x], 0) == Some(true)
}

proof fn lemma_row_collision_source(row: Seq<u32>, tilesets: Seq<TileSet>, y: int, cols: int, p: (u32, u32))
    requires
        cols <= row.len(),
        row_collisions(row, tilesets, y, cols).contains(p),
    ensures
        exists|x: int|
            0 <= x < cols && row[x] != 0 && collisionable_from(tilesets, row[x], 0) == Some(true) && p == (
                x as u32,
                y as u32,
            ),
    decreases cols,
{
    let rest = row_collisions(row, tilesets, y, cols - 1);
    let x = cols - 1;
    if row[x] != 0 && collisionable_from(tilesets, row[x], 0) == Some(true) {
        let full = rest.push((x as u32, y as u32));
        let j = choose|j: int| 0 <= j < full.len() && #[trigger] full[j] == p;
        if j < rest.len() {
            assert(rest[j] == p);
            lemma_row_collision_source(row, tilesets, y, cols - 1, p);
        }
    } else {
        lemma_row_collision_source(row, tilesets, y, cols - 1, p);
    }
}

proof fn lemma_layer_collision_source(gids: Seq<Vec<u32>>, tilesets: Seq<TileSet>, rows: int, p: (u32, u32))
    requires
        rows <= gids.len(),
        layer_collisions(gids, tilesets, rows).contains(p),
    ensures
        exists|y: int, x: int|
            0 <= y < rows && 0 <= x < gids[y]@.len() && gids[y]@[x] != 0 && collisionable_from(
                tilesets,
                gids[y]@[x],
                0,
            ) == Some(true) && p == (x as u32, y as u32),
    decreases rows,
{
    let rest = layer_collisions(gids, tilesets, rows - 1);
    let last = row_collisions(gids[rows - 1]@, tilesets, rows - 1, gids[rows - 1]@.len() as int);
    lemma_contains_in_sum(rest, last, p);
    if rest.contains(p) {
        lemma_layer_collision_source(gids, tilesets, rows - 1, p);
    } else {
        lemma_row_collision_source(gids[rows - 1]@, tilesets, rows - 1, gids[rows - 1]@.len() as int, p);
        let row = gids[rows - 1]@;
        let x = choose|x: int|
            0 <= x < row.len() && #[trigger] row[x] != 0 && collisionable_from(tilesets, row[x], 0) == Some(
                true,
            ) && p == (x as u32, (rows - 1) as u32);
        assert(gids[rows - 1]@[x] == row[x]);
        assert(0 <= rows - 1 < rows);
    }
}

proof fn lemma_collision_source(layers: Seq<TileLayer>, tilesets: Seq<TileSet>, count: int, p: (u32, u32))
    requires
        count <= layers.len(),
        collision_locations(layers, tilesets, count).contains(p),
    ensures
        exists|l: int, y: int, x: int|
            l < count && #[trigger] blocking_tile_at(layers, tilesets, l, y, x) && p == (x as u32, y as u32),
    decreases count,
{
    let rest = collision_locations(layers, tilesets, count - 1);
    if !layers[count - 1].visible {
        lemma_collision_source(layers, tilesets, count - 1, p);
    } else {
        let here = layer_collisions(layers[count - 1].gids@, tilesets, layers[count - 1].gids@.len() as int);
        lemma_contains_in_sum(rest, here, p);
        if rest.contains(p) {
            lemma_collision_source(layers, tilesets, count - 1, p);
        } else {
            lemma_layer_collision_source(layers[count - 1].gids@, tilesets, layers[count - 1].gids@.len() as int, p);
            let g = layers[count - 1].gids@;
            let (y, x) = choose|y: int, x: int|
                0 <= y < g.len() && 0 <= x < g[y]@.len() && #[trigger] g[y]@[x] != 0 && collisionable_from(
                    tilesets,
                    g[y]@[x],
                    0,
                ) == Some(true) && p == (x as u32, y as u32);
            assert(blocking_tile_at(layers, tilesets, count - 1, y, x));
        }
    }
}

/// Law: every obstacle of the grid that `build_collision_map` makes is the
/// position of a non-empty tile of a shown layer whose tile carries collision
/// shapes; nothing else blocks.
pub proof fn law_only_collision_tiles_block(layers: Seq<TileLayer>, tilesets: Seq<TileSet>, p: (u32, u32))
    requires
        collision_locations(layers, tilesets, layers.len() as int).contains(p),
    ensures
        exists|l: int, y: int, x: int|
            #[trigger] blocking_tile_at(layers, tilesets, l, y, x) && p == (x as u32, y as u32),
{
    lemma_collision_source(layers, tilesets, layers.len() as int, p);
}

/// Law: every non-empty tile of a shown layer, in any row and column, whose
/// tile carries collision shapes blocks movement: its position is among the
/// positions that `build_collision_map` makes obstacles of the grid.
pub proof fn law_collision_tiles_block(layers: Seq<TileLayer>, tilesets: Seq<TileSet>, l: int, y: int, x: int)
    requires
        0 <= l < layers.len(),
        layers[l].visible,
        0 <= y < layers[l].gids@.len(),
        0 <= x < layers[l].gids@[y]@.len(),
        layers[l].gids@[y]@[x] != 0,
        collisionable_from(tilesets, layers[l].gids@[y]@[x], 0) == Some(true),
    ensures
        collision_locations(layers, tilesets, layers.len() as int).contains((x as u32, y as u32)),
{
    lemma_collision_found(layers, tilesets, layers.len() as int, l, y, x);
}

/// The tile set found for `gid` holds it.
proof fn lemma_first_tileset_holds(tilesets: Seq<TileSet>, gid: u32, i: int)
    requires
        0 <= i,
    ensures
        first_tileset_at(tilesets, gid, i) matches Some(k) ==> i <= k < tilesets.len()
            && tilesets[k].spec_contains_gid(gid as int),
    decreases tilesets.len() - i,
{
    if i < tilesets.len() && !tilesets[i].spec_contains_gid(gid as int) {
        lemma_first_tileset_holds(tilesets, gid, i + 1);
    }
}

/// A tile set that holds a tile has a positive width in tiles.
proof fn lemma_count_positive(count: (u32, u32))
    requires
        count.0 * count.1 > 0,
    ensures
        count.0 > 0,
{
    if count.0 == 0 {
        assert(count.0 * count.1 == 0);
    }
}

/// A square of the map grid, as a route search records it.
#[derive(Clone, Copy)]
pub struct CollisionMapNode {
    pub done: bool,
    pub cost: i32,
}

/// The map grid for route searches: its size and the positions that block
/// movement.
pub struct CollisionMap {
    map: Vec<Vec<CollisionMapNode>>,
    size: (u32, u32),
    collision_objects: Vec<(u32, u32)>,
}

/// The test that `not_contains` makes.
pub open spec fn outside_test(size: (u32, u32), position: (i32, i32)) -> bool {
    &&& position.0 < 0
    &&& position.0 >= size.0 as i32
    &&& position.1 < 0
    &&& position.1 >= size.1 as i32
}

/// A position that a route may step on: `not_contains` does not reject it and
/// it is not one of the blocking positions (read as unsigned coordinates).
pub open spec fn movable(size: (u32, u32), obstacles: Seq<(u32, u32)>, x: i32, y: i32) -> bool {
    !outside_test(size, (x, y)) && !obstacles.contains((x as u32, y as u32))
}

impl CollisionMap {
    pub closed spec fn spec_size(&self) -> (u32, u32) {
        self.size
    }

    pub closed spec fn spec_obstacles(&self) -> Seq<(u32, u32)> {
        self.collision_objects@
    }

    pub closed spec fn spec_rows(&self) -> Seq<Vec<CollisionMapNode>> {
        self.map@
    }

    /// A grid of `size.0` by `size.1` squares, none visited yet, with the
    /// given blocking positions.
    pub fn new(size: (u32, u32), collision_objects: Vec<(u32, u32)>) -> (r: Self)
        ensures
            r.spec_size() == size,
            r.spec_obstacles() == collision_objects@,
            r.spec_rows().len() == size.0,
            forall|i: int| 0 <= i < size.0 ==> #[trigger] r.spec_rows()[i]@.len() == size.1,
    {
        let row = vec![CollisionMapNode { done: false, cost: -1 }; size.1 as usize];
        let map = vec![row; size.0 as usize];
        CollisionMap { map: map, size: size, collision_objects: collision_objects }
    }

    /// The test that the map makes to tell positions outside the grid: every
    /// one of its four comparisons must hold.
    pub fn not_contains(&self, position: (i32, i32)) -> (r: bool)
        ensures
            r == outside_test(self.spec_size(), position),
    {
        position.0 < 0 && position.0 >= self.size.0 as i32 && position.1 < 0 && position.1
            >= self.size.1 as i32
    }

    fn is_blocked(&self, x: u32, y: u32) -> (r: bool)
        ensures
            r == self.spec_obstacles().contains((x, y)),
    {
        let mut i: usize = 0;
        while i < self.collision_objects.len()
            invariant
                i <= self.collision_objects@.len(),
                forall|k: int| 0 <= k < i ==> self.collision_objects@[k] != (x, y),
            decreases self.collision_objects.len() - i,
        {
            if self.collision_objects[i].0 == x && self.collision_objects[i].1 == y {
                assert(self.collision_objects@[i as int] == (x, y));
                return true;
            }
            i += 1;
        }
        false
    }

    pub fn is_movable_position(&self, x: i32, y: i32) -> (r: bool)
        ensures
            r == movable(self.spec_size(), self.spec_obstacles(), x, y),
    {
        !self.not_contains((x, y)) && !self.is_blocked(x as u32, y as u32)
    }

    /// The record of a square; the grid never hands one out.
    pub fn get(&self, position: (i32, i32)) -> (r: Option<&CollisionMapNode>)
        ensures
            r is None,
    {
        None
    }

    /// The squares next to `point` that a route may step on, above, below,
    /// left and right in that order, each at the cost of one step.
    pub fn successors(&self, point: (i32, i32)) -> (r: Vec<((i32, i32), usize)>)
        requires
            i32::MIN < point.0 < i32::MAX,
            i32::MIN < point.1 < i32::MAX,
        ensures
            r@ == neighbour_steps(self.spec_size(), self.spec_obstacles(), point),
    {
        let mut successors_list: Vec<((i32, i32), usize)> = Vec::new();

        let cand_point = (point.0, point.1 - 1);
        if self.is_movable_position(cand_point.0, cand_point.1) {
            successors_list.push((cand_point, 1));
        }
        let cand_point = (point.0, point.1 + 1);
        if self.is_movable_position(cand_point.0, cand_point.1) {
            successors_list.push((cand_point, 1));
        }
        let cand_point = (point.0 - 1, point.1);
        if self.is_movable_position(cand_point.0, cand_point.1) {
            successors_list.push((cand_point, 1));
        }
        let cand_point = (point.0 + 1, point.1);
        if self.is_movable_position(cand_point.0, cand_point.1) {
            successors_list.push((cand_point, 1));
        }
        successors_list
    }
}

/// `q` is one of the four squares next to `p`.
pub open spec fn adjacent(p: (i32, i32), q: (i32, i32)) -> bool {
    ||| q.0 == p.0 && q.1 == p.1 - 1
    ||| q.0 == p.0 && q.1 == p.1 + 1
    ||| q.0 == p.0 - 1 && q.1 == p.1
    ||| q.0 == p.0 + 1 && q.1 == p.1
}

/// The steps that `successors` offers from `p`.
pub open spec fn neighbour_steps(size: (u32, u32), obstacles: Seq<(u32, u32)>, p: (i32, i32)) -> Seq<
    ((i32, i32), usize),
> {
    let up = (p.0, (p.1 - 1) as i32);
    let down = (p.0, (p.1 + 1) as i32);
    let left = ((p.0 - 1) as i32, p.1);
    let right = ((p.0 + 1) as i32, p.1);
    let s0 = Seq::<((i32, i32), usize)>::empty();
    let s1 = if movable(size, obstacles, up.0, up.1) {
        s0.push((up, 1usize))
    } else {
        s0
    };
    let s2 = if movable(size, obstacles, down.0, down.1) {
        s1.push((down, 1usize))
    } else {
        s1
    };
    let s3 = if movable(size, obstacles, left.0, left.1) {
        s2.push((left, 1usize))
    } else {
        s2
    };
    if movable(size, obstacles, right.0, right.1) {
        s3.push((right, 1usize))
    } else {
        s3
    }
}

/// `path` is a route from `start` to `goal`: it starts and ends there, and
/// each step moves to an adjacent square that a route may step on.
pub open spec fn is_route(
    size: (u32, u32),
    obstacles: Seq<(u32, u32)>,
    start: (i32, i32),
    goal: (i32, i32),
    path: Seq<(i32, i32)>,
) -> bool {
    &&& path.len() >= 1
    &&& path[0] == start
    &&& path.last() == goal
    &&& forall|k: int|
        0 <= k < path.len() - 1 ==> adjacent(#[trigger] path[k], path[k + 1]) && movable(
            size,
            obstacles,
            path[k + 1].0,
            path[k + 1].1,
        )
}

/// The squares within `steps` steps of `start` keep a margin from the ends of
/// the `i32` range, so that the search can look at their neighbours.
pub open spec fn route_margin(start: (i32, i32), steps: int) -> bool {
    &&& i32::MIN + steps < start.0 < i32::MAX - steps
    &&& i32::MIN + steps < start.1 < i32::MAX - steps
}

/// Some route leads from `start` to `goal` within the margin of the `i32` range.
pub open spec fn reachable(
    size: (u32, u32),
    obstacles: Seq<(u32, u32)>,
    start: (i32, i32),
    goal: (i32, i32),
) -> bool {
    exists|path: Seq<(i32, i32)>|
        is_route(size, obstacles, start, goal, path) && route_margin(start, path.len() as int)
}

/// `path` is a route of the fewest steps from `start` to `goal`.
pub open spec fn is_shortest_route(
    size: (u32, u32),
    obstacles: Seq<(u32, u32)>,
    start: (i32, i32),
    goal: (i32, i32),
    path: Seq<(i32, i32)>,
) -> bool {
    &&& is_route(size, obstacles, start, goal, path)
    &&& forall|other: Seq<(i32, i32)>|
        #[trigger] is_route(size, obstacles, start, goal, other) ==> path.len() <= other.len()
}

/// The route and its cost that `pathfinding::prelude::dijkstra` finds on the
/// grid of the given size and blocking positions, stepping with `successors`
/// and stopping at `goal`.
pub uninterp spec fn dijkstra_route(
    size: (u32, u32),
    obstacles: Seq<(u32, u32)>,
    start: (i32, i32),
    goal: (i32, i32),
) -> Option<(Seq<(i32, i32)>, usize)>;

/// Whether the search has reached the goal square.
pub fn same_square(p: &(i32, i32), goal: &(i32, i32)) -> (r: bool)
    ensures
        r == (*p == *goal),
{
    p.0 == goal.0 && p.1 == goal.1
}

/// `start` is not the goal, and no square next to it may be stepped on, so
/// the search ends at once (it looks only at `start`'s neighbours, which stay
/// inside the `i32` range).
pub open spec fn walled_in(
    size: (u32, u32),
    obstacles: Seq<(u32, u32)>,
    start: (i32, i32),
    goal: (i32, i32),
) -> bool {
    &&& start != goal
    &&& neighbour_steps(size, obstacles, start).len() == 0
    &&& i32::MIN < start.0 < i32::MAX
    &&& i32::MIN < start.1 < i32::MAX
}

/// Calls `pathfinding::prelude::dijkstra` from `start`, with the map's
/// `successors` as the steps and `same_square` with `goal` as the stop test.
/// The crate documents that the result is a path of the least total cost from
/// the start to a node that passes the test, holding both ends, together with
/// its cost, and `None` when no such node can be reached.  Here each step
/// costs one, so the cost is the number of steps.  The search only ends when
/// the goal can be reached or every reachable square has been looked at, and
/// it looks at the neighbours of the squares it reaches; so either a
/// reachable goal within the margin of the `i32` range is required, or a
/// start walled in, where the search looks at the start alone and ends
/// without a path.
#[verifier::external_body]
fn shortest_route(map: &CollisionMap, start: (i32, i32), goal: (i32, i32)) -> (r: Option<(Vec<(i32, i32)>, usize)>)
    requires
        reachable(map.spec_size(), map.spec_obstacles(), start, goal) || walled_in(
            map.spec_size(),
            map.spec_obstacles(),
            start,
            goal,
        ),
    ensures
        r matches Some(x) ==> dijkstra_route(map.spec_size(), map.spec_obstacles(), start, goal) == Some(
            (x.0@, x.1),
        ),
        r is None ==> dijkstra_route(map.spec_size(), map.spec_obstacles(), start, goal) is None,
        reachable(map.spec_size(), map.spec_obstacles(), start, goal) ==> r is Some && is_shortest_route(
            map.spec_size(),
            map.spec_obstacles(),
            start,
            goal,
            r.unwrap().0@,
        ) && r.unwrap().1 == r.unwrap().0@.len() - 1,
        walled_in(map.spec_size(), map.spec_obstacles(), start, goal) ==> r is None,
{
    dijkstra(&start, |p| map.successors(*p), |p| same_square(p, &goal))
}

impl CollisionMap {
    /// A route of the fewest steps from `start` to `goal`, as the search finds
    /// it; none from a start walled in.
    pub fn find_path(&self, start: (i32, i32), goal: (i32, i32)) -> (r: Option<Vec<(i32, i32)>>)
        requires
            reachable(self.spec_size(), self.spec_obstacles(), start, goal) || walled_in(
                self.spec_size(),
                self.spec_obstacles(),
                start,
                goal,
            ),
        ensures
            reachable(self.spec_size(), self.spec_obstacles(), start, goal) ==> r is Some
                && is_shortest_route(self.spec_size(), self.spec_obstacles(), start, goal, r.unwrap()@),
            walled_in(self.spec_size(), self.spec_obstacles(), start, goal) ==> r is None,
            r is None ==> dijkstra_route(self.spec_size(), self.spec_obstacles(), start, goal) is None,
            r matches Some(p) ==> dijkstra_route(self.spec_size(), self.spec_obstacles(), start, goal) is Some
                && dijkstra_route(self.spec_size(), self.spec_obstacles(), start, goal).unwrap().0 == p@,
    {
        let result = shortest_route(self, start, goal);

        if let Some((path, _)) = result {
            Some(path)
        } else {
            None
        }
    }
}

/// The squares that a step from `prev` reaches: next to one of them, and
/// such that a route may step on them.
pub open spec fn one_step(
    size: (u32, u32),
    obstacles: Seq<(u32, u32)>,
    prev: Set<(i32, i32)>,
) -> Set<(i32, i32)> {
    Set::new(
        |q: (i32, i32)|
            exists|p: (i32, i32)| #[trigger] prev.contains(p) && adjacent(p, q) && movable(size, obstacles, q.0, q.1),
    )
}

/// The squares that routes of at most `k` steps from `start` reach.
pub open spec fn within_steps(
    size: (u32, u32),
    obstacles: Seq<(u32, u32)>,
    start: (i32, i32),
    k: nat,
) -> Set<(i32, i32)>
    decreases k,
{
    if k == 0 {
        set![start]
    } else {
        let prev = within_steps(size, obstacles, start, (k - 1) as nat);
        prev.union(one_step(size, obstacles, prev))
    }
}

/// Manhattan distance between two squares.
pub open spec fn square_distance(p: (i32, i32), q: (i32, i32)) -> int {
    (if p.0 >= q.0 { p.0 - q.0 } else { q.0 - p.0 }) + (if p.1 >= q.1 { p.1 - q.1 } else { q.1 - p.1 })
}

proof fn lemma_within_distance(size: (u32, u32), obstacles: Seq<(u32, u32)>, start: (i32, i32), k: nat)
    ensures
        forall|q: (i32, i32)| #[trigger]
            within_steps(size, obstacles, start, k).contains(q) ==> square_distance(start, q) <= k,
    decreases k,
{
    if k > 0 {
        let prev = within_steps(size, obstacles, start, (k - 1) as nat);
        lemma_within_distance(size, obstacles, start, (k - 1) as nat);
        assert forall|q: (i32, i32)| #[trigger]
            within_steps(size, obstacles, start, k).contains(q) implies square_distance(start, q) <= k by {
            if !prev.contains(q) {
                let p = choose|p: (i32, i32)| #[trigger] prev.contains(p) && adjacent(p, q) && movable(
                    size,
                    obstacles,
                    q.0,
                    q.1,
                );
                assert(square_distance(start, p) <= k - 1);
            }
        }
    }
}

proof fn lemma_within_grows(size: (u32, u32), obstacles: Seq<(u32, u32)>, start: (i32, i32), j: nat, k: nat)
    requires
        j <= k,
    ensures
        forall|q: (i32, i32)| #[trigger]
            within_steps(size, obstacles, start, j).contains(q) ==> within_steps(size, obstacles, start, k).contains(q),
    decreases k - j,
{
    if j < k {
        lemma_within_grows(size, obstacles, start, j, (k - 1) as nat);
    }
}

/// A route of at most `k` steps leads to every square of `within_steps`.
proof fn lemma_within_route(
    size: (u32, u32),
    obstacles: Seq<(u32, u32)>,
    start: (i32, i32),
    k: nat,
    q: (i32, i32),
) -> (path: Seq<(i32, i32)>)
    requires
        within_steps(size, obstacles, start, k).contains(q),
    ensures
        is_route(size, obstacles, start, q, path),
        path.len() <= k + 1,
    decreases k,
{
    if k == 0 {
        let path = seq![start];
        assert(q == start);
        path
    } else {
        let prev = within_steps(size, obstacles, start, (k - 1) as nat);
        if prev.contains(q) {
            lemma_within_route(size, obstacles, start, (k - 1) as nat, q)
        } else {
            let p = choose|p: (i32, i32)| #[trigger] prev.contains(p) && adjacent(p, q) && movable(
                size,
                obstacles,
                q.0,
                q.1,
            );
            let before = lemma_within_route(size, obstacles, start, (k - 1) as nat, p);
            let path = before.push(q);
            assert forall|i: int| 0 <= i < path.len() - 1 implies adjacent(#[trigger] path[i], path[i + 1])
                && movable(size, obstacles, path[i + 1].0, path[i + 1].1) by {
                if i < before.len() - 1 {
                    assert(path[i] == before[i] && path[i + 1] == before[i + 1]);
                    assert(adjacent(before[i], before[i + 1]));
                } else {
                    assert(path[i] == p && path[i + 1] == q);
                }
            }
            path
        }
    }
}

/// The end of every route of at most `k` steps is among `within_steps`.
proof fn lemma_route_within(
    size: (u32, u32),
    obstacles: Seq<(u32, u32)>,
    start: (i32, i32),
    k: nat,
    path: Seq<(i32, i32)>,
)
    requires
        is_route(size, obstacles, start, path.last(), path),
        path.len() <= k + 1,
    ensures
        within_steps(size, obstacles, start, k).contains(path.last()),
    decreases path.len(),
{
    let n = path.len();
    if n == 1 {
        assert(path.last() == start);
        assert(within_steps(size, obstacles, start, 0).contains(start));
        lemma_within_grows(size, obstacles, start, 0, k);
    } else {
        let before = path.drop_last();
        assert forall|i: int| 0 <= i < before.len() - 1 implies adjacent(#[trigger] before[i], before[i + 1])
            && movable(size, obstacles, before[i + 1].0, before[i + 1].1) by {
            assert(adjacent(path[i], path[i + 1]));
        }
        lemma_route_within(size, obstacles, start, (n - 2) as nat, before);
        let p = before.last();
        assert(adjacent(path[n - 2], path[n - 1]));
        let prev = within_steps(size, obstacles, start, (n - 2) as nat);
        assert(prev.contains(p));
        assert(one_step(size, obstacles, prev).contains(path.last()));
        assert(within_steps(size, obstacles, start, (n - 1) as nat) == prev.union(one_step(size, obstacles, prev)));
        assert(within_steps(size, obstacles, start, (n - 1) as nat).contains(path.last()));
        lemma_within_grows(size, obstacles, start, (n - 1) as nat, k);
    }
}

fn contains_square(v: &Vec<(i32, i32)>, q: (i32, i32)) -> (r: bool)
    ensures
        r == v@.contains(q),
{
    let mut i: usize = 0;
    while i < v.len()
        invariant
            i <= v@.len(),
            forall|j: int| 0 <= j < i ==> v@[j] != q,
        decreases v.len() - i,
    {
        if v[i].0 == q.0 && v[i].1 == q.1 {
            assert(v@[i as int] == q);
            return true;
        }
        i += 1;
    }
    false
}

impl CollisionMap {
    /// Adds `c` to the squares when a route may step on it and it is not
    /// among them yet.
    fn add_square(&self, squares: &mut Vec<(i32, i32)>, c: (i32, i32))
        ensures
            final(squares)@.len() >= old(squares)@.len(),
            forall|j: int| 0 <= j < old(squares)@.len() ==> #[trigger] final(squares)@[j] == old(squares)@[j],
            forall|q: (i32, i32)| #[trigger]
                final(squares)@.contains(q) <==> (old(squares)@.contains(q) || (q == c && movable(
                    self.spec_size(),
                    self.spec_obstacles(),
                    c.0,
                    c.1,
                ))),
    {
        let ghost before = squares@;
        if self.is_movable_position(c.0, c.1) && !contains_square(squares, c) {
            squares.push(c);
            proof {
                assert forall|q: (i32, i32)| #[trigger] squares@.contains(q) <==> (before.contains(q) || q == c) by {
                    if squares@.contains(q) {
                        let j = choose|j: int| 0 <= j < squares@.len() && squares@[j] == q;
                        if j < before.len() {
                            assert(before[j] == q);
                        }
                    }
                    if before.contains(q) {
                        let j = choose|j: int| 0 <= j < before.len() && before[j] == q;
                        assert(squares@[j] == q);
                    }
                    if q == c {
                        assert(squares@[before.len() as int] == c);
                    }
                }
            }
        }
    }

    /// Whether a route of at most `max_steps` steps leads from `start` to
    /// `goal`, the squares that near `start` keeping a margin from the ends of
    /// the `i32` range.  When it does, the goal is reachable, so that
    /// `find_path` can be called.
    pub fn route_within(&self, start: (i32, i32), goal: (i32, i32), max_steps: u32) -> (r: bool)
        ensures
            r == (route_margin(start, max_steps + 1) && exists|path: Seq<(i32, i32)>|
                is_route(self.spec_size(), self.spec_obstacles(), start, goal, path) && path.len()
                    <= max_steps + 1),
            r ==> reachable(self.spec_size(), self.spec_obstacles(), start, goal),
    {
        let ghost size = self.spec_size();
        let ghost obstacles = self.spec_obstacles();
        let m: i64 = max_steps as i64 + 1;
        if !(-2147483648i64 + m < start.0 as i64 && (start.0 as i64) < 2147483647i64 - m
            && -2147483648i64 + m < start.1 as i64 && (start.1 as i64) < 2147483647i64 - m) {
            return false;
        }
        let mut seen: Vec<(i32, i32)> = Vec::new();
        seen.push(start);
        proof {
            assert forall|q: (i32, i32)| #[trigger] seen@.contains(q) <==> within_steps(size, obstacles, start, 0).contains(q) by {
                if seen@.contains(q) {
                    let j = choose|j: int| 0 <= j < seen@.len() && seen@[j] == q;
                    assert(j == 0);
                }
                if q == start {
                    assert(seen@[0] == start);
                }
            }
        }
        let mut k: u32 = 0;
        while k < max_steps
            invariant
                k <= max_steps,
                size == self.spec_size(),
                obstacles == self.spec_obstacles(),
                route_margin(start, max_steps + 1),
                forall|q: (i32, i32)| #[trigger] seen@.contains(q) <==> within_steps(size, obstacles, start, k as nat).contains(q),
            decreases max_steps - k,
        {
            let ghost old_seen = seen@;
            let ghost prev = within_steps(size, obstacles, start, k as nat);
            let ghost next = within_steps(size, obstacles, start, (k + 1) as nat);
            proof {
                lemma_within_distance(size, obstacles, start, k as nat);
                lemma_within_grows(size, obstacles, start, k as nat, (k + 1) as nat);
            }
            let len0 = seen.len();
            let mut i: usize = 0;
            while i < len0
                invariant
                    i <= len0,
                    len0 == old_seen.len(),
                    k < max_steps,
                    size == self.spec_size(),
                    obstacles == self.spec_obstacles(),
                    route_margin(start, max_steps + 1),
                    prev == within_steps(size, obstacles, start, k as nat),
                    next == within_steps(size, obstacles, start, (k + 1) as nat),
                    next == prev.union(one_step(size, obstacles, prev)),
                    forall|q: (i32, i32)| #[trigger] old_seen.contains(q) <==> prev.contains(q),
                    forall|q: (i32, i32)| #[trigger] prev.contains(q) ==> square_distance(start, q) <= k,
                    seen@.len() >= len0,
                    forall|j: int| 0 <= j < len0 ==> #[trigger] seen@[j] == old_seen[j],
                    forall|q: (i32, i32)| #[trigger] seen@.contains(q) ==> next.contains(q),
                    forall|j: int, q: (i32, i32)|
                        0 <= j < i && #[trigger] adjacent(old_seen[j], q) && movable(size, obstacles, q.0, q.1)
                            ==> seen@.contains(q),
                decreases len0 - i,
            {
                let p = seen[i];
                proof {
                    assert(old_seen[i as int] == p);
                    assert(old_seen.contains(p));
                    assert(prev.contains(p));
                    assert(square_distance(start, p) <= k);
                }
                let ghost before = seen@;
                let up = (p.0, p.1 - 1);
                let down = (p.0, p.1 + 1);
                let left = (p.0 - 1, p.1);
                let right = (p.0 + 1, p.1);
                self.add_square(&mut seen, up);
                self.add_square(&mut seen, down);
                self.add_square(&mut seen, left);
                self.add_square(&mut seen, right);
                proof {
                    assert forall|q: (i32, i32)| #[trigger] seen@.contains(q) implies next.contains(q) by {
                        if !before.contains(q) {
                            assert(adjacent(p, q) && movable(size, obstacles, q.0, q.1));
                            assert(one_step(size, obstacles, prev).contains(q));
                        }
                    }
                    assert forall|j: int, q: (i32, i32)|
                        0 <= j < i + 1 && #[trigger] adjacent(old_seen[j], q) && movable(size, obstacles, q.0, q.1)
                            implies seen@.contains(q) by {
                        if j < i {
                            assert(before.contains(q));
                        }
                    }
                }
                i += 1;
            }
            proof {
                assert forall|q: (i32, i32)| #[trigger] seen@.contains(q) <==> next.contains(q) by {
                    if next.contains(q) {
                        if prev.contains(q) {
                            assert(old_seen.contains(q));
                            let j = choose|j: int| 0 <= j < old_seen.len() && old_seen[j] == q;
                            assert(seen@[j] == q);
                        } else {
                            assert(one_step(size, obstacles, prev).contains(q));
                            let p = choose|p: (i32, i32)| #[trigger] prev.contains(p) && adjacent(p, q) && movable(
                                size,
                                obstacles,
                                q.0,
                                q.1,
                            );
                            assert(old_seen.contains(p));
                            let j = choose|j: int| 0 <= j < old_seen.len() && old_seen[j] == p;
                            assert(adjacent(old_seen[j], q));
                        }
                    }
                }
            }
            k += 1;
        }
        let found = contains_square(&seen, goal);
        proof {
            if found {
                let path = lemma_within_route(size, obstacles, start, max_steps as nat, goal);
                assert(route_margin(start, path.len() as int));
            } else {
                assert forall|path: Seq<(i32, i32)>|
                    is_route(size, obstacles, start, goal, path) implies path.len() > max_steps + 1 by {
                    if path.len() <= max_steps + 1 {
                        lemma_route_within(size, obstacles, start, max_steps as nat, path);
                    }
                }
            }
        }
        found
    }
}

/// The tile map of a stage: its tile sets, its layers, its size in tiles, the
/// size of its tiles, and the grid built for route searches.
pub struct StageObjectMap {
    tilesets: Vec<TileSet>,
    layers: Vec<TileLayer>,
    width: u32,
    height: u32,
    tile_width: u32,
    tile_height: u32,
    collision_map: Option<CollisionMap>,
}

/// The route of squares, read as unsigned tile positions.
pub open spec fn as_tile_positions(path: Seq<(i32, i32)>) -> Seq<(u32, u32)> {
    path.map_values(|p: (i32, i32)| (p.0 as u32, p.1 as u32))
}

impl StageObjectMap {
    pub closed spec fn spec_tilesets(&self) -> Seq<TileSet> {
        self.tilesets@
    }

    pub closed spec fn spec_layers(&self) -> Seq<TileLayer> {
        self.layers@
    }

    pub closed spec fn spec_size(&self) -> (u32, u32) {
        (self.width, self.height)
    }

    pub closed spec fn spec_tile_size(&self) -> (u32, u32) {
        (self.tile_width, self.tile_height)
    }

    pub closed spec fn spec_collision_map(&self) -> Option<CollisionMap> {
        self.collision_map
    }

    /// A map of `size.0` by `size.1` tiles of `tile_size` pixels; its route
    /// grid is not built yet.
    pub fn new(
        tilesets: Vec<TileSet>,
        layers: Vec<TileLayer>,
        size: (u32, u32),
        tile_size: (u32, u32),
    ) -> (r: Self)
        ensures
            r.spec_tilesets() == tilesets@,
            r.spec_layers() == layers@,
            r.spec_size() == size,
            r.spec_tile_size() == tile_size,
            r.spec_collision_map() is None,
    {
        StageObjectMap {
            tilesets,
            layers,
            width: size.0,
            height: size.1,
            tile_width: tile_size.0,
            tile_height: tile_size.1,
            collision_map: None,
        }
    }

    pub fn get_tile_size(&self) -> (r: (u32, u32))
        ensures
            r == self.spec_tile_size(),
    {
        (self.tile_width, self.tile_height)
    }

    /// The first tile set that holds `gid`.
    pub fn get_tileset_by_gid(&self, gid: u32) -> (r: Option<&TileSet>)
        ensures
            r matches Some(ts) ==> exists|i: int|
                0 <= i < self.spec_tilesets().len() && *ts == self.spec_tilesets()[i]
                    && ts.spec_contains_gid(gid as int) && forall|j: int|
                    0 <= j < i ==> !self.spec_tilesets()[j].spec_contains_gid(gid as int),
            r is None ==> forall|i: int|
                0 <= i < self.spec_tilesets().len() ==> !self.spec_tilesets()[i].spec_contains_gid(
                    gid as int,
                ),
    {
        let mut i: usize = 0;
        while i < self.tilesets.len()
            invariant
                i <= self.tilesets@.len(),
                forall|j: int| 0 <= j < i ==> !self.tilesets@[j].spec_contains_gid(gid as int),
            decreases self.tilesets.len() - i,
        {
            if self.tilesets[i].contains_gid(gid) {
                assert(self.spec_tilesets()[i as int] == self.tilesets@[i as int]);
                return Some(&self.tilesets[i]);
            }
            i += 1;
        }
        None
    }

    /// Whether the tile with global id `gid` blocks movement: the first tile
    /// set, in order, that holds the tile numbered `gid` minus its first id and
    /// carries collision shapes on it answers yes.
    fn is_collisionable_tile(&self, gid: u32) -> (r: bool)
        requires
            collisionable_from(self.spec_tilesets(), gid, 0) is Some,
        ensures
            Some(r) == collisionable_from(self.spec_tilesets(), gid, 0),
    {
        let mut i: usize = 0;
        while i < self.tilesets.len()
            invariant
                i <= self.tilesets@.len(),
                collisionable_from(self.tilesets@, gid, 0) is Some,
                collisionable_from(self.tilesets@, gid, 0) == collisionable_from(
                    self.tilesets@,
                    gid,
                    i as int,
                ),
            decreases self.tilesets.len() - i,
        {
            let r_gid = gid - self.tilesets[i].get_first_gid();
            if self.tilesets[i].is_collisionable_tile(r_gid) {
                return true;
            }
            i += 1;
        }
        false
    }

    fn search_collision_locations(&self) -> (r: Vec<(u32, u32)>)
        requires
            layers_answerable(self.spec_layers(), self.spec_tilesets()),
        ensures
            r@ == collision_locations(
                self.spec_layers(),
                self.spec_tilesets(),
                self.spec_layers().len() as int,
            ),
    {
        let mut collision_locations: Vec<(u32, u32)> = Vec::new();
        let mut l: usize = 0;
        while l < self.layers.len()
            invariant
                l <= self.layers@.len(),
                layers_answerable(self.layers@, self.tilesets@),
                collision_locations@ == crate::map::collision_locations(
                    self.layers@,
                    self.tilesets@,
                    l as int,
                ),
            decreases self.layers.len() - l,
        {
            let layer = &self.layers[l];
            if layer.visible {
                let ghost before = collision_locations@;
                let mut y: usize = 0;
                while y < layer.gids.len()
                    invariant
                        l < self.layers@.len(),
                        *layer == self.layers@[l as int],
                        layer.visible,
                        y <= layer.gids@.len(),
                        layers_answerable(self.layers@, self.tilesets@),
                        collision_locations@ == before + layer_collisions(
                            layer.gids@,
                            self.tilesets@,
                            y as int,
                        ),
                    decreases layer.gids.len() - y,
                {
                    let row = &layer.gids[y];
                    let ghost before_row = collision_locations@;
                    let mut x: usize = 0;
                    while x < row.len()
                        invariant
                            l < self.layers@.len(),
                            *layer == self.layers@[l as int],
                            layer.visible,
                            y < layer.gids@.len(),
                            *row == layer.gids@[y as int],
                            x <= row@.len(),
                            layers_answerable(self.layers@, self.tilesets@),
                            collision_locations@ == before_row + row_collisions(
                                row@,
                                self.tilesets@,
                                y as int,
                                x as int,
                            ),
                        decreases row.len() - x,
                    {
                        let gid = row[x];
                        if gid != 0 {
                            assert(collisionable_from(
                                self.tilesets@,
                                self.layers@[l as int].gids@[y as int]@[x as int],
                                0,
                            ) is Some);
                            if self.is_collisionable_tile(gid) {
                                collision_locations.push((x as u32, y as u32));
                            }
                        }
                        x += 1;
                    }
                    y += 1;
                }
            }
            l += 1;
        }
        collision_locations
    }


    /// The position of the first tile set that holds `gid`.
    fn tileset_index_by_gid(&self, gid: u32) -> (r: Option<usize>)
        ensures
            r matches Some(i) ==> first_tileset_at(self.spec_tilesets(), gid, 0) == Some(i as int),
            r is None ==> first_tileset_at(self.spec_tilesets(), gid, 0) is None,
    {
        let mut i: usize = 0;
        while i < self.tilesets.len()
            invariant
                i <= self.tilesets@.len(),
                first_tileset_at(self.tilesets@, gid, 0) == first_tileset_at(
                    self.tilesets@,
                    gid,
                    i as int,
                ),
            decreases self.tilesets.len() - i,
        {
            if self.tilesets[i].contains_gid(gid) {
                return Some(i);
            }
            i += 1;
        }
        None
    }

    /// The tiles to draw, before the camera and the scale are applied: layer
    /// after layer, row after row, the non-empty tiles of the shown layers,
    /// each cut from the first tile set that holds it.
    pub fn tiles_to_draw(&self) -> (r: Vec<TileDraw>)
        requires
            layers_drawable(self.spec_layers(), self.spec_tilesets()),
        ensures
            r@ == tile_draws(self.spec_layers(), self.spec_tilesets(), self.spec_layers().len() as int),
    {
        let mut draws: Vec<TileDraw> = Vec::new();
        let mut l: usize = 0;
        while l < self.layers.len()
            invariant
                l <= self.layers@.len(),
                layers_drawable(self.layers@, self.tilesets@),
                draws@ == tile_draws(self.layers@, self.tilesets@, l as int),
            decreases self.layers.len() - l,
        {
            let layer = &self.layers[l];
            if layer.visible {
                let ghost before = draws@;
                let mut y: usize = 0;
                while y < layer.gids.len()
                    invariant
                        l < self.layers@.len(),
                        *layer == self.layers@[l as int],
                        layer.visible,
                        y <= layer.gids@.len(),
                        layers_drawable(self.layers@, self.tilesets@),
                        draws@ == before + layer_draws(layer.gids@, self.tilesets@, y as int),
                    decreases layer.gids.len() - y,
                {
                    let row = &layer.gids[y];
                    let ghost before_row = draws@;
                    let mut x: usize = 0;
                    while x < row.len()
                        invariant
                            l < self.layers@.len(),
                            *layer == self.layers@[l as int],
                            layer.visible,
                            y < layer.gids@.len(),
                            *row == layer.gids@[y as int],
                            x <= row@.len(),
                            layers_drawable(self.layers@, self.tilesets@),
                            draws@ == before_row + row_draws(row@, self.tilesets@, y as int, x as int),
                        decreases row.len() - x,
                    {
                        let gid = row[x];
                        if gid != 0 {
                            assert(first_tileset_at(
                                self.tilesets@,
                                self.layers@[l as int].gids@[y as int]@[x as int],
                                0,
                            ) is Some);
                            let index = self.tileset_index_by_gid(gid);
                            match index {
                                Some(i) => {
                                    proof {
                                        lemma_first_tileset_holds(self.tilesets@, gid, 0);
                                    }
                                    let tileset = &self.tilesets[i];
                                    proof {
                                        use_type_invariant(tileset);
                                        lemma_count_positive(tileset.spec_tile_count());
                                    }
                                    let location = tileset.gid_to_location_index(gid);
                                    draws.push(
                                        TileDraw {
                                            x: x as u32,
                                            y: y as u32,
                                            gid: gid,
                                            first_gid: tileset.get_first_gid(),
                                            column: location.0,
                                            row: location.1,
                                        },
                                    );
                                },
                                None => {},
                            }
                        }
                        x += 1;
                    }
                    proof {
                        assert(draws@ == before + layer_draws(layer.gids@, self.tilesets@, y + 1));
                    }
                    y += 1;
                }
            }
            l += 1;
        }
        draws
    }


    /// Whether the tile sets answer for tile `gid` whether it blocks movement.
    fn answerable_gid(&self, gid: u32) -> (r: bool)
        ensures
            r == (collisionable_from(self.spec_tilesets(), gid, 0) is Some),
    {
        let mut i: usize = 0;
        while i < self.tilesets.len()
            invariant
                i <= self.tilesets@.len(),
                collisionable_from(self.tilesets@, gid, 0) == collisionable_from(
                    self.tilesets@,
                    gid,
                    i as int,
                ),
            decreases self.tilesets.len() - i,
        {
            if gid < self.tilesets[i].get_first_gid() {
                return false;
            }
            let r_gid = gid - self.tilesets[i].get_first_gid();
            if self.tilesets[i].is_collisionable_tile(r_gid) {
                return true;
            }
            i += 1;
        }
        true
    }

    /// Whether the route grid can be built: every non-empty tile of every
    /// shown layer gets an answer from the tile sets.
    pub fn can_build_collision_map(&self) -> (r: bool)
        ensures
            r == layers_answerable(self.spec_layers(), self.spec_tilesets()),
    {
        let mut l: usize = 0;
        while l < self.layers.len()
            invariant
                l <= self.layers@.len(),
                forall|l2: int, y2: int, x2: int|
                    0 <= l2 < l ==> #[trigger] answerable_at(
                        self.layers@,
                        self.tilesets@,
                        l2,
                        y2,
                        x2,
                    ),
            decreases self.layers.len() - l,
        {
            let layer = &self.layers[l];
            if layer.visible {
                let mut y: usize = 0;
                while y < layer.gids.len()
                    invariant
                        l < self.layers@.len(),
                        *layer == self.layers@[l as int],
                        layer.visible,
                        y <= layer.gids@.len(),
                        forall|l2: int, y2: int, x2: int|
                            0 <= l2 < l ==> #[trigger] answerable_at(
                                self.layers@,
                                self.tilesets@,
                                l2,
                                y2,
                                x2,
                            ),
                        forall|y2: int, x2: int|
                            0 <= y2 < y ==> #[trigger] answerable_at(
                                self.layers@,
                                self.tilesets@,
                                l as int,
                                y2,
                                x2,
                            ),
                    decreases layer.gids.len() - y,
                {
                    let row = &layer.gids[y];
                    let mut x: usize = 0;
                    while x < row.len()
                        invariant
                            l < self.layers@.len(),
                            *layer == self.layers@[l as int],
                            layer.visible,
                            y < layer.gids@.len(),
                            *row == layer.gids@[y as int],
                            x <= row@.len(),
                            forall|l2: int, y2: int, x2: int|
                                0 <= l2 < l ==> #[trigger] answerable_at(
                                    self.layers@,
                                    self.tilesets@,
                                    l2,
                                    y2,
                                    x2,
                                ),
                            forall|y2: int, x2: int|
                                0 <= y2 < y ==> #[trigger] answerable_at(
                                    self.layers@,
                                    self.tilesets@,
                                    l as int,
                                    y2,
                                    x2,
                                ),
                            forall|x2: int|
                                0 <= x2 < x ==> #[trigger] answerable_at(
                                    self.layers@,
                                    self.tilesets@,
                                    l as int,
                                    y as int,
                                    x2,
                                ),
                        decreases row.len() - x,
                    {
                        let gid = row[x];
                        if gid != 0 && !self.answerable_gid(gid) {
                            proof {
                                assert(!answerable_at(
                                    self.layers@,
                                    self.tilesets@,
                                    l as int,
                                    y as int,
                                    x as int,
                                ));
                            }
                            return false;
                        }
                        x += 1;
                    }
                    proof {
                        assert forall|x2: int| #[trigger]
                            answerable_at(
                                self.layers@,
                                self.tilesets@,
                                l as int,
                                y as int,
                                x2,
                            ) by {
                            if 0 <= x2 < x {
                            }
                        }
                    }
                    y += 1;
                }
                proof {
                    assert forall|y2: int, x2: int| #[trigger]
                        answerable_at(self.layers@, self.tilesets@, l as int, y2, x2) by {
                        if 0 <= y2 < y {
                        }
                    }
                }
            } else {
                proof {
                    assert forall|y2: int, x2: int| #[trigger]
                        answerable_at(self.layers@, self.tilesets@, l as int, y2, x2) by {
                    }
                }
            }
            l += 1;
        }
        proof {
            assert forall|l2: int, y2: int, x2: int|
                0 <= l2 < self.layers@.len() && self.layers@[l2].visible && 0 <= y2
                    < self.layers@[l2].gids@.len() && 0 <= x2 < self.layers@[l2].gids@[y2]@.len()
                    && self.layers@[l2].gids@[y2]@[x2] != 0 implies (#[trigger] collisionable_from(
                self.tilesets@,
                self.layers@[l2].gids@[y2]@[x2],
                0,
            )) is Some by {
                assert(answerable_at(self.layers@, self.tilesets@, l2, y2, x2));
            }
        }
        true
    }

    /// Whether the tiles can be drawn: every non-empty tile of every shown
    /// layer is held by some tile set.
    pub fn can_draw_tiles(&self) -> (r: bool)
        ensures
            r == layers_drawable(self.spec_layers(), self.spec_tilesets()),
    {
        let mut l: usize = 0;
        while l < self.layers.len()
            invariant
                l <= self.layers@.len(),
                forall|l2: int, y2: int, x2: int|
                    0 <= l2 < l ==> #[trigger] drawable_at(
                        self.layers@,
                        self.tilesets@,
                        l2,
                        y2,
                        x2,
                    ),
            decreases self.layers.len() - l,
        {
            let layer = &self.layers[l];
            if layer.visible {
                let mut y: usize = 0;
                while y < layer.gids.len()
                    invariant
                        l < self.layers@.len(),
                        *layer == self.layers@[l as int],
                        layer.visible,
                        y <= layer.gids@.len(),
                        forall|l2: int, y2: int, x2: int|
                            0 <= l2 < l ==> #[trigger] drawable_at(
                                self.layers@,
                                self.tilesets@,
                                l2,
                                y2,
                                x2,
                            ),
                        forall|y2: int, x2: int|
                            0 <= y2 < y ==> #[trigger] drawable_at(
                                self.layers@,
                                self.tilesets@,
                                l as int,
                                y2,
                                x2,
                            ),
                    decreases layer.gids.len() - y,
                {
                    let row = &layer.gids[y];
                    let mut x: usize = 0;
                    while x < row.len()
                        invariant
                            l < self.layers@.len(),
                            *layer == self.layers@[l as int],
                            layer.visible,
                            y < layer.gids@.len(),
                            *row == layer.gids@[y as int],
                            x <= row@.len(),
                            forall|l2: int, y2: int, x2: int|
                                0 <= l2 < l ==> #[trigger] drawable_at(
                                    self.layers@,
                                    self.tilesets@,
                                    l2,
                                    y2,
                                    x2,
                                ),
                            forall|y2: int, x2: int|
                                0 <= y2 < y ==> #[trigger] drawable_at(
                                    self.layers@,
                                    self.tilesets@,
                                    l as int,
                                    y2,
                                    x2,
                                ),
                            forall|x2: int|
                                0 <= x2 < x ==> #[trigger] drawable_at(
                                    self.layers@,
                                    self.tilesets@,
                                    l as int,
                                    y as int,
                                    x2,
                                ),
                        decreases row.len() - x,
                    {
                        let gid = row[x];
                        if gid != 0 && self.tileset_index_by_gid(gid).is_none() {
                            proof {
                                assert(!drawable_at(
                                    self.layers@,
                                    self.tilesets@,
                                    l as int,
                                    y as int,
                                    x as int,
                                ));
                            }
                            return false;
                        }
                        x += 1;
                    }
                    proof {
                        assert forall|x2: int| #[trigger]
                            drawable_at(
                                self.layers@,
                                self.tilesets@,
                                l as int,
                                y as int,
                                x2,
                            ) by {
                            if 0 <= x2 < x {
                            }
                        }
                    }
                    y += 1;
                }
                proof {
                    assert forall|y2: int, x2: int| #[trigger]
                        drawable_at(self.layers@, self.tilesets@, l as int, y2, x2) by {
                        if 0 <= y2 < y {
                        }
                    }
                }
            } else {
                proof {
                    assert forall|y2: int, x2: int| #[trigger]
                        drawable_at(self.layers@, self.tilesets@, l as int, y2, x2) by {
                    }
                }
            }
            l += 1;
        }
        proof {
            assert forall|l2: int, y2: int, x2: int|
                0 <= l2 < self.layers@.len() && self.layers@[l2].visible && 0 <= y2
                    < self.layers@[l2].gids@.len() && 0 <= x2 < self.layers@[l2].gids@[y2]@.len()
                    && self.layers@[l2].gids@[y2]@[x2] != 0 implies (#[trigger] first_tileset_at(
                self.tilesets@,
                self.layers@[l2].gids@[y2]@[x2],
                0,
            )) is Some by {
                assert(drawable_at(self.layers@, self.tilesets@, l2, y2, x2));
            }
        }
        true
    }

    /// Builds the route grid of the map from the tiles that block movement.
    pub fn build_collision_map(&mut self)
        requires
            layers_answerable(old(self).spec_layers(), old(self).spec_tilesets()),
        ensures
            final(self).spec_tilesets() == old(self).spec_tilesets(),
            final(self).spec_layers() == old(self).spec_layers(),
            final(self).spec_size() == old(self).spec_size(),
            final(self).spec_tile_size() == old(self).spec_tile_size(),
            final(self).spec_collision_map() matches Some(m) && m.spec_size() == old(self).spec_size()
                && m.spec_obstacles() == collision_locations(
                old(self).spec_layers(),
                old(self).spec_tilesets(),
                old(self).spec_layers().len() as int,
            ),
    {
        let collision_points = self.search_collision_locations();
        self.collision_map = Some(CollisionMap::new((self.width, self.height), collision_points));
    }

    /// Whether the map's grid holds a route of at most `max_steps` steps from
    /// `start` to `goal`, as `CollisionMap::route_within` tells it; never
    /// without a grid.  When it does, `find_shortest_route` may be called.
    pub fn route_within(&self, start: (u32, u32), goal: (u32, u32), max_steps: u32) -> (r: bool)
        ensures
            self.spec_collision_map() is None ==> !r,
            self.spec_collision_map() matches Some(m) ==> r == (route_margin(
                (start.0 as i32, start.1 as i32),
                max_steps + 1,
            ) && exists|path: Seq<(i32, i32)>|
                is_route(
                    m.spec_size(),
                    m.spec_obstacles(),
                    (start.0 as i32, start.1 as i32),
                    (goal.0 as i32, goal.1 as i32),
                    path,
                ) && path.len() <= max_steps + 1),
            r ==> (self.spec_collision_map() matches Some(m) && reachable(
                m.spec_size(),
                m.spec_obstacles(),
                (start.0 as i32, start.1 as i32),
                (goal.0 as i32, goal.1 as i32),
            )),
    {
        match self.collision_map.as_ref() {
            Some(m) => m.route_within((start.0 as i32, start.1 as i32), (goal.0 as i32, goal.1 as i32), max_steps),
            None => false,
        }
    }

    /// A route of the fewest steps between two tiles, when the route grid is
    /// built.
    pub fn find_shortest_route(&self, start: (u32, u32), goal: (u32, u32)) -> (r: Option<
        Vec<(u32, u32)>,
    >)
        requires
            self.spec_collision_map() matches Some(m) ==> reachable(
                m.spec_size(),
                m.spec_obstacles(),
                (start.0 as i32, start.1 as i32),
                (goal.0 as i32, goal.1 as i32),
            ),
        ensures
            self.spec_collision_map() is None ==> r is None,
            self.spec_collision_map() matches Some(m) ==> r matches Some(route) && exists|
                path: Seq<(i32, i32)>,
            |
                is_shortest_route(
                    m.spec_size(),
                    m.spec_obstacles(),
                    (start.0 as i32, start.1 as i32),
                    (goal.0 as i32, goal.1 as i32),
                    path,
                ) && route@ == as_tile_positions(path),
    {
        if let Some(collision_map) = self.collision_map.as_ref() {
            if let Some(path) = collision_map.find_path(
                (start.0 as i32, start.1 as i32),
                (goal.0 as i32, goal.1 as i32),
            ) {
                let mut route: Vec<(u32, u32)> = Vec::new();
                let mut i: usize = 0;
                while i < path.len()
                    invariant
                        i <= path@.len(),
                        route@ == as_tile_positions(path@.take(i as int)),
                    decreases path.len() - i,
                {
                    route.push((path[i].0 as u32, path[i].1 as u32));
                    proof {
                        assert(path@.take(i + 1) =~= path@.take(i as int).push(path@[i as int]));
                        assert(as_tile_positions(path@.take(i + 1)) =~= as_tile_positions(
                            path@.take(i as int),
                        ).push((path@[i as int].0 as u32, path@[i as int].1 as u32)));
                    }
                    i += 1;
                }
                proof {
                    assert(path@.take(i as int) =~= path@);
                }
                Some(route)
            } else {
                None
            }
        } else {
            None
        }
    }
}

} // verus!
