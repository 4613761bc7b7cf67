//! The tile grid: lookup of a free tile by position, the highlight pass
//! that marks the placement targets next to occupied tiles, and founding
//! the base on the start tile.

use vstd::prelude::*;
use vstd::pervasive::VecAdditionalExecFns;
use crate::building::BuildingType;
use crate::tile::Position;
use crate::tile::Tile;

verus! {

/// Whether a tile sits at `(x, y)` and is free to build on.
pub open spec fn matches_at(t: Tile, x: int, y: int) -> bool {
    t.position.x == x && t.position.y == y && !t.has_building
}

/// Whether `tiles[k]` is the first free tile at `(x, y)`: it matches, and
/// no tile before it does.
pub open spec fn is_first_free_at(tiles: Seq<Tile>, k: int, x: int, y: int) -> bool {
    &&& 0 <= k < tiles.len()
    &&& matches_at(tiles[k], x, y)
    &&& forall|j: int| 0 <= j < k ==> !matches_at(tiles[j], x, y)
}

/// Whether the highlight pass, working on the occupied tile `tiles[b]`,
/// marks `tiles[k]`: `k` is the first free tile at one of the four cardinal
/// neighbor positions of `b`.
pub open spec fn marked_from(tiles: Seq<Tile>, tile_size: int, b: int, k: int) -> bool {
    &&& 0 <= b < tiles.len()
    &&& tiles[b].has_building
    &&& {
        let x = tiles[b].position.x as int;
        let y = tiles[b].position.y as int;
        ||| is_first_free_at(tiles, k, x, y - tile_size)
        ||| is_first_free_at(tiles, k, x, y + tile_size)
        ||| is_first_free_at(tiles, k, x + tile_size, y)
        ||| is_first_free_at(tiles, k, x - tile_size, y)
    }
}

/// Whether the highlight pass marks `tiles[k]` at all: some occupied tile
/// has it as the first free tile at a cardinal neighbor position.
pub open spec fn newly_marked(tiles: Seq<Tile>, tile_size: int, k: int) -> bool {
    exists|b: int| marked_from(tiles, tile_size, b, k)
}

/// The highlight pass only ever offers free tiles: a tile it marks carries
/// no building, so tiles that are already occupied are excluded.
pub proof fn lemma_marked_tile_is_free(tiles: Seq<Tile>, tile_size: int, k: int)
    requires
        newly_marked(tiles, tile_size, k),
    ensures
        0 <= k < tiles.len(),
        !tiles[k].has_building,
{
    let b = choose|b: int| marked_from(tiles, tile_size, b, k);
    assert(marked_from(tiles, tile_size, b, k));
}

/// Whether `tiles[i]` is the first start tile.
pub open spec fn is_first_start(tiles: Seq<Tile>, i: int) -> bool {
    &&& 0 <= i < tiles.len()
    &&& tiles[i].start_tile
    &&& forall|j: int| 0 <= j < i ==> !tiles[j].start_tile
}

/// Whether a lookup result names index `k`.
spec fn lookup_found(r: Option<usize>, k: int) -> bool {
    match r {
        Some(i) => i == k,
        None => false,
    }
}

/// Two tile sequences that agree pointwise on position and occupancy agree
/// on which tile is the first free one at any position.
proof fn lemma_lookup_invariance(s1: Seq<Tile>, s2: Seq<Tile>, x: int, y: int)
    requires
        s1.len() == s2.len(),
        forall|j: int|
            0 <= j < s1.len() ==> (#[trigger] s1[j]).position == s2[j].position
                && s1[j].has_building == s2[j].has_building,
    ensures
        forall|k: int| is_first_free_at(s1, k, x, y) == #[trigger] is_first_free_at(s2, k, x, y),
{
    assert forall|k: int|
        is_first_free_at(s1, k, x, y) == #[trigger] is_first_free_at(s2, k, x, y) by {
        if is_first_free_at(s1, k, x, y) {
            assert(matches_at(s2[k], x, y));
            assert forall|j: int| 0 <= j < k implies !matches_at(s2[j], x, y) by {
                assert(!matches_at(s1[j], x, y));
            }
        }
        if is_first_free_at(s2, k, x, y) {
            assert(matches_at(s1[k], x, y));
            assert forall|j: int| 0 <= j < k implies !matches_at(s1[j], x, y) by {
                assert(!matches_at(s2[j], x, y));
            }
        }
    }
}

/// At one position there is at most one first free tile.
proof fn lemma_first_free_unique(s: Seq<Tile>, k1: int, k2: int, x: int, y: int)
    requires
        is_first_free_at(s, k1, x, y),
        is_first_free_at(s, k2, x, y),
    ensures
        k1 == k2,
{
    if k1 < k2 {
        assert(!matches_at(s[k1], x, y));
    }
    if k2 < k1 {
        assert(!matches_at(s[k2], x, y));
    }
}

/// A lookup made on `pre` names exactly the first free tile of `tiles0` at
/// `(x, y)`, provided the two sequences agree on positions and occupancy.
proof fn lemma_lookup_characterizes(
    pre: Seq<Tile>,
    tiles0: Seq<Tile>,
    r: Option<usize>,
    x: int,
    y: int,
)
    requires
        pre.len() == tiles0.len(),
        forall|j: int|
            0 <= j < pre.len() ==> (#[trigger] pre[j]).position == tiles0[j].position
                && pre[j].has_building == tiles0[j].has_building,
        match r {
            Some(i) => is_first_free_at(pre, i as int, x, y),
            None => forall|j: int| 0 <= j < pre.len() ==> !matches_at(pre[j], x, y),
        },
    ensures
        forall|k: int| lookup_found(r, k) == #[trigger] is_first_free_at(tiles0, k, x, y),
{
    lemma_lookup_invariance(pre, tiles0, x, y);
    assert forall|k: int|
        lookup_found(r, k) == #[trigger] is_first_free_at(tiles0, k, x, y) by {
        match r {
            Some(i) => {
                assert(is_first_free_at(tiles0, i as int, x, y));
                if is_first_free_at(tiles0, k, x, y) {
                    lemma_first_free_unique(tiles0, k, i as int, x, y);
                }
            },
            None => {
                if is_first_free_at(tiles0, k, x, y) {
                    assert(matches_at(pre[k], x, y));
                }
            },
        }
    }
}

/// The tile sequence after a lookup result has been highlighted: the found
/// tile, if any, with its placement flag raised.
spec fn apply_mark(s: Seq<Tile>, r: Option<usize>) -> Seq<Tile> {
    match r {
        Some(i) => s.update(i as int, Tile { can_place_building: true, ..s[i as int] }),
        None => s,
    }
}

/// The highlight pass's invariant: `cur` is `tiles0` with exactly the tiles
/// marked so far by the occupied tiles before index `b`.
spec fn pass_done_below(tiles0: Seq<Tile>, ts: int, cur: Seq<Tile>, b: int) -> bool {
    &&& cur.len() == tiles0.len()
    &&& forall|k: int|
        0 <= k < tiles0.len() ==> (#[trigger] cur[k]) == (Tile {
            can_place_building: tiles0[k].can_place_building
                || exists|bb: int| bb < b && #[trigger] marked_from(tiles0, ts, bb, k),
            ..tiles0[k]
        })
}

/// One step of the highlight pass, on an occupied tile: marking the four
/// lookup results extends the invariant from `b` to `b + 1`.
proof fn lemma_pass_step(
    tiles0: Seq<Tile>,
    ts: int,
    pre: Seq<Tile>,
    b: int,
    north: Option<usize>,
    south: Option<usize>,
    east: Option<usize>,
    west: Option<usize>,
)
    requires
        0 <= b < tiles0.len(),
        pass_done_below(tiles0, ts, pre, b),
        tiles0[b].has_building,
        match north {
            Some(i) => is_first_free_at(pre, i as int, tiles0[b].position.x as int, tiles0[b].position.y - ts),
            None => forall|j: int|
                0 <= j < pre.len() ==> !matches_at(pre[j], tiles0[b].position.x as int, tiles0[b].position.y - ts),
        },
        match south {
            Some(i) => is_first_free_at(pre, i as int, tiles0[b].position.x as int, tiles0[b].position.y + ts),
            None => forall|j: int|
                0 <= j < pre.len() ==> !matches_at(pre[j], tiles0[b].position.x as int, tiles0[b].position.y + ts),
        },
        match east {
            Some(i) => is_first_free_at(pre, i as int, tiles0[b].position.x + ts, tiles0[b].position.y as int),
            None => forall|j: int|
                0 <= j < pre.len() ==> !matches_at(pre[j], tiles0[b].position.x + ts, tiles0[b].position.y as int),
        },
        match west {
            Some(i) => is_first_free_at(pre, i as int, tiles0[b].position.x - ts, tiles0[b].position.y as int),
            None => forall|j: int|
                0 <= j < pre.len() ==> !matches_at(pre[j], tiles0[b].position.x - ts, tiles0[b].position.y as int),
        },
    ensures
        pass_done_below(
            tiles0,
            ts,
            apply_mark(apply_mark(apply_mark(apply_mark(pre, north), south), east), west),
            b + 1,
        ),
{
    let xs = tiles0[b].position.x as int;
    let ys = tiles0[b].position.y as int;
    lemma_lookup_characterizes(pre, tiles0, north, xs, ys - ts);
    lemma_lookup_characterizes(pre, tiles0, south, xs, ys + ts);
    lemma_lookup_characterizes(pre, tiles0, east, xs + ts, ys);
    lemma_lookup_characterizes(pre, tiles0, west, xs - ts, ys);
    let post = apply_mark(apply_mark(apply_mark(apply_mark(pre, north), south), east), west);
    assert forall|k: int|
        0 <= k < tiles0.len() implies (#[trigger] post[k]) == (Tile {
        can_place_building: tiles0[k].can_place_building
            || exists|bb: int| bb < b + 1 && #[trigger] marked_from(tiles0, ts, bb, k),
        ..tiles0[k]
    }) by {
        let found = lookup_found(north, k) || lookup_found(south, k) || lookup_found(east, k)
            || lookup_found(west, k);
        assert(post[k] == (Tile {
            can_place_building: pre[k].can_place_building || found,
            ..pre[k]
        }));
        assert(found == marked_from(tiles0, ts, b, k));
        if exists|bb: int| bb < b + 1 && #[trigger] marked_from(tiles0, ts, bb, k) {
            let bb = choose|bb: int| bb < b + 1 && #[trigger] marked_from(tiles0, ts, bb, k);
            if bb < b {
                assert(exists|b2: int| b2 < b && #[trigger] marked_from(tiles0, ts, b2, k));
            } else {
                assert(bb == b);
            }
        }
        if exists|bb: int| bb < b && #[trigger] marked_from(tiles0, ts, bb, k) {
            let bb = choose|bb: int| bb < b && #[trigger] marked_from(tiles0, ts, bb, k);
            assert(bb < b + 1 && marked_from(tiles0, ts, bb, k));
        }
        if marked_from(tiles0, ts, b, k) {
            assert(b < b + 1 && marked_from(tiles0, ts, b, k));
        }
    }
}

/// One step of the highlight pass, on a free tile: nothing is marked and
/// the invariant extends from `b` to `b + 1`.
proof fn lemma_pass_skip(tiles0: Seq<Tile>, ts: int, cur: Seq<Tile>, b: int)
    requires
        0 <= b < tiles0.len(),
        pass_done_below(tiles0, ts, cur, b),
        !tiles0[b].has_building,
    ensures
        pass_done_below(tiles0, ts, cur, b + 1),
{
    assert forall|k: int|
        0 <= k < tiles0.len() implies (#[trigger] cur[k]) == (Tile {
        can_place_building: tiles0[k].can_place_building
            || exists|bb: int| bb < b + 1 && #[trigger] marked_from(tiles0, ts, bb, k),
        ..tiles0[k]
    }) by {
        if exists|bb: int| bb < b + 1 && #[trigger] marked_from(tiles0, ts, bb, k) {
            let bb = choose|bb: int| bb < b + 1 && #[trigger] marked_from(tiles0, ts, bb, k);
            assert(bb != b);
            assert(exists|b2: int| b2 < b && #[trigger] marked_from(tiles0, ts, b2, k));
        }
        if exists|bb: int| bb < b && #[trigger] marked_from(tiles0, ts, bb, k) {
            let bb = choose|bb: int| bb < b && #[trigger] marked_from(tiles0, ts, bb, k);
            assert(bb < b + 1 && marked_from(tiles0, ts, bb, k));
        }
    }
}

/// Once the pass has stepped over the whole grid, the invariant says each
/// tile's flag follows `newly_marked`.
proof fn lemma_pass_complete(tiles0: Seq<Tile>, ts: int, cur: Seq<Tile>)
    requires
        pass_done_below(tiles0, ts, cur, tiles0.len() as int),
    ensures
        forall|k: int|
            0 <= k < tiles0.len() ==> (#[trigger] cur[k]) == (Tile {
                can_place_building: tiles0[k].can_place_building || newly_marked(tiles0, ts, k),
                ..tiles0[k]
            }),
{
    let n = tiles0.len() as int;
    assert forall|k: int|
        0 <= k < tiles0.len() implies (#[trigger] cur[k]) == (Tile {
        can_place_building: tiles0[k].can_place_building || newly_marked(tiles0, ts, k),
        ..tiles0[k]
    }) by {
        if newly_marked(tiles0, ts, k) {
            let bb = choose|b2: int| #[trigger] marked_from(tiles0, ts, b2, k);
            assert(bb < n && marked_from(tiles0, ts, bb, k));
            assert(exists|b2: int| b2 < n && #[trigger] marked_from(tiles0, ts, b2, k));
        }
        if exists|b2: int| b2 < n && #[trigger] marked_from(tiles0, ts, b2, k) {
            let bb = choose|b2: int| b2 < n && #[trigger] marked_from(tiles0, ts, b2, k);
            assert(marked_from(tiles0, ts, bb, k));
            assert(newly_marked(tiles0, ts, k));
        }
    }
}

/// The grid. Tiles keep their order of insertion; every position-based
/// lookup scans them in that order.
pub struct TileMap {
    pub tile_size: i32,
    pub tiles: Vec<Tile>,
}

impl TileMap {
    /// An empty grid whose neighbor offsets step by `tile_size`.
    pub fn new(tile_size: i32) -> (m: TileMap)
        ensures
            m.tile_size == tile_size,
            m.tiles@.len() == 0,
    {
        TileMap { tile_size, tiles: Vec::new() }
    }

    /// Append a tile to the grid.
    pub fn add_tile(&mut self, tile: Tile)
        ensures
            final(self).tile_size == old(self).tile_size,
            final(self).tiles@ == old(self).tiles@.push(tile),
    {
        self.tiles.push(tile);
    }

    /// Scan the grid for the first free tile at exactly `(x, y)`.
    fn lookup_free(&self, x: i64, y: i64) -> (r: Option<usize>)
        ensures
            match r {
                Some(i) => is_first_free_at(self.tiles@, i as int, x as int, y as int),
                None => forall|j: int|
                    0 <= j < self.tiles@.len() ==> !matches_at(self.tiles@[j], x as int, y as int),
            },
    {
        let n = self.tiles.len();
        let mut i: usize = 0;
        while i < n
            invariant
                i <= n,
                n == self.tiles@.len(),
                forall|j: int| 0 <= j < i ==> !matches_at(self.tiles@[j], x as int, y as int),
            decreases n - i,
        {
            let t = self.tiles[i];
            if t.position.x as i64 == x && t.position.y as i64 == y && !t.has_building {
                return Some(i);
            }
            i = i + 1;
        }
        None
    }

    /// Find the first tile that sits at `position` and is free to build on.
    /// Returns its index, or none when every tile there is occupied or no
    /// tile is there at all.
    pub fn get_tile_at_position(&self, position: Position) -> (r: Option<usize>)
        ensures
            match r {
                Some(i) => is_first_free_at(self.tiles@, i as int, position.x as int, position.y as int),
                None => forall|j: int|
                    0 <= j < self.tiles@.len()
                        ==> !matches_at(self.tiles@[j], position.x as int, position.y as int),
            },
    {
        self.lookup_free(position.x as i64, position.y as i64)
    }

    /// Highlight the tile a lookup found, if it found one.
    pub fn set_highlight_for_optional_tile(&mut self, tile: Option<usize>)
        requires
            tile matches Some(i) ==> i < old(self).tiles@.len(),
        ensures
            final(self).tile_size == old(self).tile_size,
            match tile {
                Some(i) => final(self).tiles@ == old(self).tiles@.update(
                    i as int,
                    (Tile { can_place_building: true, ..old(self).tiles@[i as int] }),
                ),
                None => final(self).tiles@ == old(self).tiles@,
            },
    {
        if let Some(i) = tile {
            let mut t = self.tiles[i];
            t.toggle_highlight(true);
            self.tiles.set(i, t);
        }
    }

    /// Turn every tile's placement highlight off.
    pub fn disable_tile_highlights(&mut self)
        ensures
            final(self).tile_size == old(self).tile_size,
            final(self).tiles@.len() == old(self).tiles@.len(),
            forall|k: int|
                0 <= k < old(self).tiles@.len()
                    ==> final(self).tiles@[k] == (Tile {
                    can_place_building: false,
                    ..old(self).tiles@[k]
                }),
    {
        let n = self.tiles.len();
        let mut i: usize = 0;
        while i < n
            invariant
                i <= n,
                n == self.tiles@.len(),
                self.tile_size == old(self).tile_size,
                forall|k: int|
                    0 <= k < i ==> self.tiles@[k] == (Tile {
                        can_place_building: false,
                        ..old(self).tiles@[k]
                    }),
                forall|k: int| i <= k < n ==> self.tiles@[k] == old(self).tiles@[k],
            decreases n - i,
        {
            let mut t = self.tiles[i];
            t.toggle_highlight(false);
            self.tiles.set(i, t);
            i = i + 1;
        }
    }

    /// One highlight pass. For every occupied tile, the first free tile at
    /// each of its four cardinal neighbor positions is marked as a placement
    /// target. A tile the pass does not mark keeps its highlight as it was,
    /// and nothing else about any tile changes; occupied tiles are never
    /// marked, since only a free tile can be the first free one anywhere.
    pub fn highlight_available_tiles(&mut self)
        ensures
            final(self).tile_size == old(self).tile_size,
            final(self).tiles@.len() == old(self).tiles@.len(),
            forall|k: int|
                0 <= k < old(self).tiles@.len()
                    ==> final(self).tiles@[k] == (Tile {
                    can_place_building: old(self).tiles@[k].can_place_building
                        || newly_marked(old(self).tiles@, old(self).tile_size as int, k),
                    ..old(self).tiles@[k]
                }),
    {
        let ghost tiles0: Seq<Tile> = self.tiles@;
        let ghost ts: int = self.tile_size as int;
        let n = self.tiles.len();
        let mut b: usize = 0;
        while b < n
            invariant
                b <= n,
                n == tiles0.len(),
                tiles0 == old(self).tiles@,
                ts == old(self).tile_size as int,
                self.tile_size == old(self).tile_size,
                pass_done_below(tiles0, ts, self.tiles@, b as int),
            decreases n - b,
        {
            let t = self.tiles[b];
            let ghost pre: Seq<Tile> = self.tiles@;
            if t.has_building {
                let x = t.position.x as i64;
                let y = t.position.y as i64;
                let step = self.tile_size as i64;
                let north = self.lookup_free(x, y - step);
                let south = self.lookup_free(x, y + step);
                let east = self.lookup_free(x + step, y);
                let west = self.lookup_free(x - step, y);
                self.set_highlight_for_optional_tile(north);
                self.set_highlight_for_optional_tile(south);
                self.set_highlight_for_optional_tile(east);
                self.set_highlight_for_optional_tile(west);
                proof {
                    assert(t == pre[b as int]);
                    assert(self.tiles@ == apply_mark(
                        apply_mark(apply_mark(apply_mark(pre, north), south), east),
                        west,
                    ));
                    lemma_pass_step(tiles0, ts, pre, b as int, north, south, east, west);
                }
            } else {
                proof {
                    assert(t == pre[b as int]);
                    lemma_pass_skip(tiles0, ts, pre, b as int);
                }
            }
            b = b + 1;
        }
        proof {
            lemma_pass_complete(tiles0, ts, self.tiles@);
        }
    }

    /// Found the base: the first start tile of the grid, if there is one,
    /// receives a building of the base type; every other tile is untouched.
    #[verifier::loop_isolation(false)]
    pub fn place_base_on_start_tile(&mut self)
        ensures
            final(self).tile_size == old(self).tile_size,
            (forall|j: int| 0 <= j < old(self).tiles@.len() ==> !old(self).tiles@[j].start_tile)
                ==> final(self).tiles@ == old(self).tiles@,
            forall|i: int|
                is_first_start(old(self).tiles@, i)
                    ==> final(self).tiles@ == old(self).tiles@.update(
                    i,
                    (Tile { has_building: true, ..old(self).tiles@[i] }),
                ),
    {
        let n = self.tiles.len();
        let mut i: usize = 0;
        while i < n
            invariant
                i <= n,
                self.tile_size == old(self).tile_size,
                self.tiles@ == old(self).tiles@,
                forall|j: int| 0 <= j < i ==> !old(self).tiles@[j].start_tile,
            decreases n - i,
        {
            let t = self.tiles[i];
            if t.start_tile {
                let mut placed = t;
                placed.place_building(BuildingType::Base);
                self.tiles.set(i, placed);
                proof {
                    assert(is_first_start(old(self).tiles@, i as int));
                    assert forall|j: int|
                        is_first_start(old(self).tiles@, j) implies j == i as int by {
                        if j < i as int {
                            assert(!old(self).tiles@[j].start_tile);
                        }
                        if (i as int) < j {
                            assert(!old(self).tiles@[i as int].start_tile);
                        }
                    }
                }
                return;
            }
            i = i + 1;
        }
    }

    /// Clear the highlights once a building has been placed. The position
    /// and type of the placement do not enter into it: the pass that marked
    /// the targets is simply undone.
    pub fn place_building(&mut self, _tile_position: Position, _building_type: BuildingType)
        ensures
            final(self).tile_size == old(self).tile_size,
            final(self).tiles@.len() == old(self).tiles@.len(),
            forall|k: int|
                0 <= k < old(self).tiles@.len()
                    ==> final(self).tiles@[k] == (Tile {
                    can_place_building: false,
                    ..old(self).tiles@[k]
                }),
    {
        self.disable_tile_highlights();
    }
}

} // verus!
