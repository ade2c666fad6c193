//! The level format and its collision layout. A level is an ASCII grid, one
//! text line per row: `#` wall, `=` floor and `_` one-way tiles, `*` grapple
//! nodes, `@` the player spawn, `E`/`G`/`S`/`R` enemies (grunt, sniper,
//! ronin) and `O` the exit; every other character is empty space. Positions
//! are (row, column) with the column counted in characters.
use vstd::prelude::*;
use vstd::string::StringSliceAdditionalSpecFns;
use crate::game::enemy::EnemyType;
use crate::game::tile_boxes::{
    in_reading_order, merge_tiles, merged_list, pos_lt, TileGroup, TileRect,
};

verus! {

#[derive(Debug, Clone, Copy, PartialEq, Eq, Structural)]
pub enum PlatformType {
    Floor,
    Crate,
    OneWay,
    Wall,
}

/// A tile of the grid.
#[derive(Debug, Clone, Copy, PartialEq, Eq, Structural)]
pub struct Tile {
    pub row: usize,
    pub col: usize,
    pub kind: PlatformType,
}

/// An enemy spawn.
#[derive(Debug, Clone, Copy, PartialEq, Eq, Structural)]
pub struct EnemySpawn {
    pub row: usize,
    pub col: usize,
    pub enemy_type: EnemyType,
}

/// Everything a level text places, in reading order.
pub struct LevelLayout {
    /// The number of text lines.
    pub rows: usize,
    pub tiles: Vec<Tile>,
    pub grapple_nodes: Vec<(usize, usize)>,
    /// The first `@` of the text: with several, only the first is used.
    pub player_spawn: Option<(usize, usize)>,
    /// The last `O` of the text.
    pub exit: Option<(usize, usize)>,
    pub enemies: Vec<EnemySpawn>,
}

/// A byte that continues a multi-byte character.
pub open spec fn is_continuation(x: u8) -> bool {
    0x80 <= x < 0xC0
}

/// The (row, column) of the character that starts at byte `p`: the row counts
/// the newlines before it, the column the characters since the last one.
pub open spec fn cursor(b: Seq<u8>, p: nat) -> (int, int)
    decreases p,
{
    if p == 0 {
        (0, 0)
    } else {
        let (r, c) = cursor(b, (p - 1) as nat);
        let x = b[p - 1];
        if x == 10 {
            (r + 1, 0)
        } else if is_continuation(x) {
            (r, c)
        } else {
            (r, c + 1)
        }
    }
}

/// The number of lines: one per newline, plus an unterminated last line.
pub open spec fn line_count(b: Seq<u8>) -> int {
    let newlines = cursor(b, b.len()).0;
    if b.len() > 0 && b[b.len() - 1] != 10 {
        newlines + 1
    } else {
        newlines
    }
}

pub open spec fn tile_kind(x: u8) -> Option<PlatformType> {
    if x == 35 {
        Some(PlatformType::Wall)
    } else if x == 61 {
        Some(PlatformType::Floor)
    } else if x == 95 {
        Some(PlatformType::OneWay)
    } else {
        None
    }
}

pub open spec fn enemy_kind(x: u8) -> Option<EnemyType> {
    if x == 69 || x == 71 {
        Some(EnemyType::Grunt)
    } else if x == 83 {
        Some(EnemyType::Sniper)
    } else if x == 82 {
        Some(EnemyType::Ronin)
    } else {
        None
    }
}

/// The position of byte `p` as stored in the layout.
pub open spec fn place(b: Seq<u8>, p: nat) -> (usize, usize) {
    (cursor(b, p).0 as usize, cursor(b, p).1 as usize)
}

/// The tiles among the first `p` bytes, in reading order.
pub open spec fn tiles_upto(b: Seq<u8>, p: nat) -> Seq<Tile>
    decreases p,
{
    if p == 0 {
        Seq::empty()
    } else {
        let prev = tiles_upto(b, (p - 1) as nat);
        match tile_kind(b[p - 1]) {
            Some(kind) => prev.push(
                Tile { row: place(b, (p - 1) as nat).0, col: place(b, (p - 1) as nat).1, kind },
            ),
            None => prev,
        }
    }
}

/// The positions of the byte `ch` among the first `p` bytes, in reading order.
pub open spec fn marks_upto(b: Seq<u8>, p: nat, ch: u8) -> Seq<(usize, usize)>
    decreases p,
{
    if p == 0 {
        Seq::empty()
    } else {
        let prev = marks_upto(b, (p - 1) as nat, ch);
        if b[p - 1] == ch {
            prev.push(place(b, (p - 1) as nat))
        } else {
            prev
        }
    }
}

/// The enemies among the first `p` bytes, in reading order.
pub open spec fn enemies_upto(b: Seq<u8>, p: nat) -> Seq<EnemySpawn>
    decreases p,
{
    if p == 0 {
        Seq::empty()
    } else {
        let prev = enemies_upto(b, (p - 1) as nat);
        match enemy_kind(b[p - 1]) {
            Some(enemy_type) => prev.push(
                EnemySpawn {
                    row: place(b, (p - 1) as nat).0,
                    col: place(b, (p - 1) as nat).1,
                    enemy_type,
                },
            ),
            None => prev,
        }
    }
}

/// The first position of the byte `ch`, if any.
pub open spec fn first_mark(b: Seq<u8>, ch: u8) -> Option<(usize, usize)> {
    let m = marks_upto(b, b.len(), ch);
    if m.len() == 0 {
        None
    } else {
        Some(m[0])
    }
}

/// The last position of the byte `ch`, if any.
pub open spec fn last_mark(b: Seq<u8>, ch: u8) -> Option<(usize, usize)> {
    let m = marks_upto(b, b.len(), ch);
    if m.len() == 0 {
        None
    } else {
        Some(m.last())
    }
}

/// Rows and columns never exceed the byte position.
proof fn lemma_cursor_bounds(b: Seq<u8>, p: nat)
    requires
        p <= b.len(),
    ensures
        0 <= cursor(b, p).0 <= p,
        0 <= cursor(b, p).1 <= p,
    decreases p,
{
    if p > 0 {
        lemma_cursor_bounds(b, (p - 1) as nat);
    }
}

/// Positions never move backwards in reading order.
proof fn lemma_cursor_monotone(b: Seq<u8>, q: nat, p: nat)
    requires
        q <= p <= b.len() <= usize::MAX,
    ensures
        cursor(b, q) == cursor(b, p) || pos_lt(
            (cursor(b, q).0 as usize, cursor(b, q).1 as usize),
            (cursor(b, p).0 as usize, cursor(b, p).1 as usize),
        ),
    decreases p - q,
{
    lemma_cursor_bounds(b, p);
    lemma_cursor_bounds(b, q);
    if q < p {
        lemma_cursor_monotone(b, q, (p - 1) as nat);
        lemma_cursor_bounds(b, (p - 1) as nat);
    }
}

/// The tiles of a text come in reading order, each cell once.
proof fn lemma_tiles_in_reading_order(b: Seq<u8>, p: nat)
    requires
        p <= b.len() <= usize::MAX,
    ensures
        in_reading_order(tiles_upto(b, p)),
        forall|i: int|
            0 <= i < tiles_upto(b, p).len() ==> pos_lt(
                (#[trigger] tiles_upto(b, p)[i].row, tiles_upto(b, p)[i].col),
                place(b, p),
            ),
    decreases p,
{
    lemma_cursor_bounds(b, p);
    if p > 0 {
        let q = (p - 1) as nat;
        lemma_tiles_in_reading_order(b, q);
        lemma_cursor_bounds(b, q);
        lemma_cursor_monotone(b, q, p);
        let prev = tiles_upto(b, q);
        let cur = tiles_upto(b, p);
        if tile_kind(b[q as int]) is Some {
            assert(pos_lt(place(b, q), place(b, p)));
            assert forall|i: int| 0 <= i < cur.len() implies pos_lt(
                (#[trigger] cur[i].row, cur[i].col),
                place(b, p),
            ) by {
                if i < prev.len() {
                    assert(cur[i] == prev[i]);
                }
            }
            assert forall|i: int, j: int| 0 <= i < j < cur.len() implies pos_lt(
                (cur[i].row, cur[i].col),
                (cur[j].row, cur[j].col),
            ) by {
                assert(cur[i] == prev[i]);
                if j < prev.len() {
                    assert(cur[j] == prev[j]);
                }
            }
        } else {
            assert forall|i: int| 0 <= i < cur.len() implies pos_lt(
                (#[trigger] cur[i].row, cur[i].col),
                place(b, p),
            ) by {
                assert(pos_lt((prev[i].row, prev[i].col), place(b, q)));
            }
        }
    }
}

/// Reads a level text.
pub fn parse_level(text: &str) -> (r: LevelLayout)
    ensures
        r.rows == line_count(text.spec_bytes()),
        r.tiles@ == tiles_upto(text.spec_bytes(), text.spec_bytes().len()),
        in_reading_order(r.tiles@),
        r.grapple_nodes@ == marks_upto(text.spec_bytes(), text.spec_bytes().len(), 42),
        r.player_spawn == first_mark(text.spec_bytes(), 64),
        r.exit == last_mark(text.spec_bytes(), 79),
        r.enemies@ == enemies_upto(text.spec_bytes(), text.spec_bytes().len()),
{
    let b: &[u8] = text.as_bytes();
    let ghost bs = b@;
    let n = b.len();
    let mut tiles: Vec<Tile> = Vec::new();
    let mut grapple_nodes: Vec<(usize, usize)> = Vec::new();
    let mut enemies: Vec<EnemySpawn> = Vec::new();
    let mut spawns: Vec<(usize, usize)> = Vec::new();
    let mut exits: Vec<(usize, usize)> = Vec::new();
    let mut row: usize = 0;
    let mut col: usize = 0;
    let mut p: usize = 0;
    while p < n
        invariant
            n == bs.len(),
            bs == b@,
            p <= n,
            (row as int, col as int) == cursor(bs, p as nat),
            tiles@ == tiles_upto(bs, p as nat),
            grapple_nodes@ == marks_upto(bs, p as nat, 42),
            spawns@ == marks_upto(bs, p as nat, 64),
            exits@ == marks_upto(bs, p as nat, 79),
            enemies@ == enemies_upto(bs, p as nat),
        decreases n - p,
    {
        proof {
            lemma_cursor_bounds(bs, p as nat);
            lemma_cursor_bounds(bs, (p + 1) as nat);
        }
        let x = b[p];
        let here = (row, col);
        if x == 35 {
            tiles.push(Tile { row, col, kind: PlatformType::Wall });
        } else if x == 61 {
            tiles.push(Tile { row, col, kind: PlatformType::Floor });
        } else if x == 95 {
            tiles.push(Tile { row, col, kind: PlatformType::OneWay });
        } else if x == 42 {
            grapple_nodes.push(here);
        } else if x == 64 {
            spawns.push(here);
        } else if x == 69 || x == 71 {
            enemies.push(EnemySpawn { row, col, enemy_type: EnemyType::Grunt });
        } else if x == 83 {
            enemies.push(EnemySpawn { row, col, enemy_type: EnemyType::Sniper });
        } else if x == 82 {
            enemies.push(EnemySpawn { row, col, enemy_type: EnemyType::Ronin });
        } else if x == 79 {
            exits.push(here);
        }
        if x == 10 {
            row = row + 1;
            col = 0;
        } else if !(0x80 <= x && x < 0xC0) {
            col = col + 1;
        }
        p = p + 1;
    }
    proof {
        lemma_cursor_bounds(bs, n as nat);
        if n > 0 && bs[n - 1] != 10 {
            lemma_cursor_bounds(bs, (n - 1) as nat);
            assert(cursor(bs, n as nat).0 == cursor(bs, (n - 1) as nat).0);
        }
    }
    proof {
        lemma_tiles_in_reading_order(bs, n as nat);
    }
    let rows = if n > 0 && b[n - 1] != 10 { row + 1 } else { row };
    let player_spawn = if spawns.len() == 0 { None } else { Some(spawns[0]) };
    let exit = if exits.len() == 0 { None } else { Some(exits[exits.len() - 1]) };
    LevelLayout { rows, tiles, grapple_nodes, player_spawn, exit, enemies }
}

/// Platform counts before and after merging adjacent collision boxes.
#[derive(Debug, Clone, Copy, PartialEq, Eq, Structural)]
pub struct LevelCollisionStats {
    pub raw_platforms: usize,
    pub raw_solid: usize,
    pub raw_one_way: usize,
    pub raw_wall: usize,
    pub merged_solid: usize,
    pub merged_one_way: usize,
    pub merged_wall: usize,
    pub merged_all: usize,
}

/// The collision boxes of a level.
pub struct CollisionBoxes {
    /// Every tile but one-way platforms.
    pub solid: Vec<TileRect>,
    pub one_way: Vec<TileRect>,
    pub wall: Vec<TileRect>,
    /// The solid boxes followed by the one-way boxes.
    pub all: Vec<TileRect>,
}

/// Merges a level's tiles into its collision lists.
pub fn collision_boxes(tiles: &[Tile]) -> (r: CollisionBoxes)
    requires
        in_reading_order(tiles@),
    ensures
        merged_list(tiles@, TileGroup::Solid, r.solid@),
        merged_list(tiles@, TileGroup::OneWay, r.one_way@),
        merged_list(tiles@, TileGroup::Wall, r.wall@),
        r.all@ == r.solid@ + r.one_way@,
{
    let solid = merge_tiles(tiles, TileGroup::Solid);
    let one_way = merge_tiles(tiles, TileGroup::OneWay);
    let wall = merge_tiles(tiles, TileGroup::Wall);
    let mut all: Vec<TileRect> = Vec::new();
    let mut i: usize = 0;
    while i < solid.len()
        invariant
            i <= solid@.len(),
            all@ == solid@.subrange(0, i as int),
        decreases solid@.len() - i,
    {
        all.push(solid[i]);
        i = i + 1;
    }
    let mut j: usize = 0;
    while j < one_way.len()
        invariant
            j <= one_way@.len(),
            all@ == solid@ + one_way@.subrange(0, j as int),
        decreases one_way@.len() - j,
    {
        all.push(one_way[j]);
        j = j + 1;
    }
    CollisionBoxes { solid, one_way, wall, all }
}

/// The number of tiles of kind `k`.
pub open spec fn count_kind(tiles: Seq<Tile>, k: PlatformType) -> nat
    decreases tiles.len(),
{
    if tiles.len() == 0 {
        0
    } else {
        count_kind(tiles.drop_last(), k) + if tiles.last().kind == k {
            1nat
        } else {
            0nat
        }
    }
}

fn count_tiles(tiles: &[Tile], k: PlatformType) -> (r: usize)
    ensures
        r == count_kind(tiles@, k),
{
    let mut n: usize = 0;
    let mut i: usize = 0;
    while i < tiles.len()
        invariant
            i <= tiles@.len(),
            n == count_kind(tiles@.subrange(0, i as int), k),
            n <= i,
        decreases tiles@.len() - i,
    {
        assert(tiles@.subrange(0, i + 1).drop_last() == tiles@.subrange(0, i as int));
        if tiles[i].kind == k {
            n = n + 1;
        }
        i = i + 1;
    }
    assert(tiles@.subrange(0, tiles@.len() as int) == tiles@);
    n
}

/// Tile counts before merging and box counts after.
pub fn collision_stats(tiles: &[Tile], boxes: &CollisionBoxes) -> (r: LevelCollisionStats)
    ensures
        r.raw_platforms == tiles@.len(),
        r.raw_one_way == count_kind(tiles@, PlatformType::OneWay),
        r.raw_wall == count_kind(tiles@, PlatformType::Wall),
        r.raw_solid == tiles@.len() - count_kind(tiles@, PlatformType::OneWay),
        r.merged_solid == boxes.solid@.len(),
        r.merged_one_way == boxes.one_way@.len(),
        r.merged_wall == boxes.wall@.len(),
        r.merged_all == boxes.all@.len(),
{
    let raw_one_way = count_tiles(tiles, PlatformType::OneWay);
    let raw_wall = count_tiles(tiles, PlatformType::Wall);
    proof {
        lemma_count_bound(tiles@, PlatformType::OneWay);
    }
    LevelCollisionStats {
        raw_platforms: tiles.len(),
        raw_solid: tiles.len() - raw_one_way,
        raw_one_way,
        raw_wall,
        merged_solid: boxes.solid.len(),
        merged_one_way: boxes.one_way.len(),
        merged_wall: boxes.wall.len(),
        merged_all: boxes.all.len(),
    }
}

proof fn lemma_count_bound(tiles: Seq<Tile>, k: PlatformType)
    ensures
        count_kind(tiles, k) <= tiles.len(),
    decreases tiles.len(),
{
    if tiles.len() > 0 {
        lemma_count_bound(tiles.drop_last(), k);
    }
}

/// A problem the level editor reports about a level text.
#[derive(Debug, Clone, Copy, PartialEq, Eq, Structural)]
pub enum LevelWarning {
    /// No `@`: the player spawns at the default position.
    NoPlayerSpawn,
    /// Several `@`; only one is used.
    MultiplePlayerSpawns(usize),
    /// No `O`: the level has no goal.
    NoExit,
    /// No `=` or `#`: the level has no floor.
    NoSolidTiles,
}

/// The number of bytes `ch` among the first `p` bytes.
pub open spec fn count_byte(b: Seq<u8>, p: nat, ch: u8) -> nat
    decreases p,
{
    if p == 0 {
        0
    } else {
        count_byte(b, (p - 1) as nat, ch) + if b[p - 1] == ch {
            1nat
        } else {
            0nat
        }
    }
}

/// The editor's warnings for a level text, in this order: a missing or
/// repeated player spawn, a missing exit, no solid tiles.
pub open spec fn spec_level_warnings(b: Seq<u8>) -> Seq<LevelWarning> {
    let spawns = count_byte(b, b.len(), 64);
    let w1: Seq<LevelWarning> = if spawns == 0 {
        seq![LevelWarning::NoPlayerSpawn]
    } else if spawns > 1 {
        seq![LevelWarning::MultiplePlayerSpawns(spawns as usize)]
    } else {
        Seq::empty()
    };
    let w2 = if count_byte(b, b.len(), 79) == 0 {
        w1.push(LevelWarning::NoExit)
    } else {
        w1
    };
    if count_byte(b, b.len(), 61) + count_byte(b, b.len(), 35) == 0 {
        w2.push(LevelWarning::NoSolidTiles)
    } else {
        w2
    }
}

proof fn lemma_count_byte_bound(b: Seq<u8>, p: nat, ch: u8)
    ensures
        count_byte(b, p, ch) <= p,
    decreases p,
{
    if p > 0 {
        lemma_count_byte_bound(b, (p - 1) as nat, ch);
    }
}

/// Checks a level text for a player spawn, an exit and solid ground.
pub fn level_warnings(text: &str) -> (r: Vec<LevelWarning>)
    ensures
        r@ == spec_level_warnings(text.spec_bytes()),
{
    let b: &[u8] = text.as_bytes();
    let ghost bs = b@;
    let mut spawns: usize = 0;
    let mut exits: usize = 0;
    let mut solids: usize = 0;
    let mut p: usize = 0;
    while p < b.len()
        invariant
            bs == b@,
            p <= bs.len(),
            spawns == count_byte(bs, p as nat, 64),
            exits == count_byte(bs, p as nat, 79),
            solids == count_byte(bs, p as nat, 61) + count_byte(bs, p as nat, 35),
            solids <= p,
        decreases bs.len() - p,
    {
        proof {
            lemma_count_byte_bound(bs, p as nat, 64);
            lemma_count_byte_bound(bs, p as nat, 79);
        }
        let x = b[p];
        if x == 64 {
            spawns = spawns + 1;
        } else if x == 79 {
            exits = exits + 1;
        } else if x == 61 || x == 35 {
            solids = solids + 1;
        }
        p = p + 1;
    }
    let mut warnings: Vec<LevelWarning> = Vec::new();
    if spawns == 0 {
        warnings.push(LevelWarning::NoPlayerSpawn);
    } else if spawns > 1 {
        warnings.push(LevelWarning::MultiplePlayerSpawns(spawns));
    }
    if exits == 0 {
        warnings.push(LevelWarning::NoExit);
    }
    if solids == 0 {
        warnings.push(LevelWarning::NoSolidTiles);
    }
    warnings
}

} // verus!
