//! Merging level tiles into collision boxes. Horizontal runs of adjacent
//! tiles become one box; for full-height tiles, boxes of the same width that
//! repeat on consecutive rows are stacked into one taller box. Boxes come out
//! ordered by left column, then right column, then top row.
use vstd::prelude::*;
use crate::game::level::{PlatformType, Tile};

verus! {

/// Which tiles a collision list holds.
#[derive(Debug, Clone, Copy, PartialEq, Eq, Structural)]
pub enum TileGroup {
    /// Every tile but one-way platforms.
    Solid,
    OneWay,
    Wall,
}

pub open spec fn in_group(kind: PlatformType, g: TileGroup) -> bool {
    match g {
        TileGroup::Solid => kind != PlatformType::OneWay,
        TileGroup::OneWay => kind == PlatformType::OneWay,
        TileGroup::Wall => kind == PlatformType::Wall,
    }
}

/// Full-height tiles stack; one-way platforms are thin and never touch vertically.
pub open spec fn stacks(g: TileGroup) -> bool {
    !(g is OneWay)
}

/// A box of tile cells: columns `col0 .. col1`, rows `row0 .. row1`.
#[derive(Debug, Clone, Copy, PartialEq, Eq, Structural)]
pub struct TileRect {
    pub col0: usize,
    pub col1: usize,
    pub row0: usize,
    pub row1: usize,
}

/// Reading order of cells: by row, then by column.
pub open spec fn pos_lt(a: (usize, usize), b: (usize, usize)) -> bool {
    a.0 < b.0 || (a.0 == b.0 && a.1 < b.1)
}

/// The tiles are in reading order, each cell at most once, and every
/// coordinate has a successor.
pub open spec fn in_reading_order(tiles: Seq<Tile>) -> bool {
    &&& forall|i: int, j: int|
        0 <= i < j < tiles.len() ==> pos_lt(
            (tiles[i].row, tiles[i].col),
            (tiles[j].row, tiles[j].col),
        )
    &&& forall|i: int|
        0 <= i < tiles.len() ==> #[trigger] tiles[i].row < usize::MAX && tiles[i].col < usize::MAX
}

/// Some tile of the group sits at row `r`, column `c`.
pub open spec fn covers(tiles: Seq<Tile>, g: TileGroup, r: int, c: int) -> bool {
    exists|i: int|
        0 <= i < tiles.len() && #[trigger] tiles[i].row == r && tiles[i].col == c && in_group(
            tiles[i].kind,
            g,
        )
}

/// Columns `c0 .. c1` of row `r` are a maximal horizontal run of the group.
pub open spec fn run_at(tiles: Seq<Tile>, g: TileGroup, r: int, c0: int, c1: int) -> bool {
    &&& 0 <= c0 < c1
    &&& forall|c: int| c0 <= c < c1 ==> #[trigger] covers(tiles, g, r, c)
    &&& !covers(tiles, g, r, c0 - 1)
    &&& !covers(tiles, g, r, c1)
}

/// The one-row box of a run.
pub open spec fn is_run_box(tiles: Seq<Tile>, g: TileGroup, b: TileRect) -> bool {
    b.row1 == b.row0 + 1 && run_at(tiles, g, b.row0 as int, b.col0 as int, b.col1 as int)
}

/// A merged box: a run, and for stacking groups the same run on every row of
/// the box and on neither the row above nor the row below.
pub open spec fn merged_box(tiles: Seq<Tile>, g: TileGroup, b: TileRect) -> bool {
    if stacks(g) {
        &&& b.row0 < b.row1
        &&& forall|r: int|
            b.row0 <= r < b.row1 ==> #[trigger] run_at(tiles, g, r, b.col0 as int, b.col1 as int)
        &&& !run_at(tiles, g, b.row0 - 1, b.col0 as int, b.col1 as int)
        &&& !run_at(tiles, g, b.row1 as int, b.col0 as int, b.col1 as int)
    } else {
        is_run_box(tiles, g, b)
    }
}

/// Output order: by left column, then right column, then top row.
pub open spec fn box_before(a: TileRect, b: TileRect) -> bool {
    a.col0 < b.col0 || (a.col0 == b.col0 && (a.col1 < b.col1 || (a.col1 == b.col1 && a.row0
        < b.row0)))
}

pub open spec fn sorted_boxes(s: Seq<TileRect>) -> bool {
    forall|i: int, j: int| 0 <= i < j < s.len() ==> box_before(s[i], s[j])
}

/// The box lies in row `r` over column `c`.
pub open spec fn box_holds(b: TileRect, r: int, c: int) -> bool {
    b.row0 <= r < b.row1 && b.col0 <= c < b.col1
}

/// Some box of the list lies in row `r` over column `c`.
pub open spec fn in_some_box(boxes: Seq<TileRect>, r: int, c: int) -> bool {
    exists|q: int| 0 <= q < boxes.len() && #[trigger] box_holds(boxes[q], r, c)
}

/// Two maximal runs of one row that share a column are the same run.
proof fn lemma_run_unique(tiles: Seq<Tile>, g: TileGroup, r: int, a: int, b: int, c0: int, c1: int)
    requires
        run_at(tiles, g, r, a, b),
        run_at(tiles, g, r, c0, c1),
        a <= c0 < b,
    ensures
        a == c0 && b == c1,
{
    if a < c0 {
        assert(covers(tiles, g, r, c0 - 1));
    }
    if b < c1 {
        assert(covers(tiles, g, r, b as int));
    }
    if b > c1 {
        assert(covers(tiles, g, r, c1 as int));
    }
}

/// Two merged boxes of one width that share a row are the same box.
proof fn lemma_box_unique(tiles: Seq<Tile>, g: TileGroup, o: TileRect, b: TileRect)
    requires
        stacks(g),
        merged_box(tiles, g, o),
        merged_box(tiles, g, b),
        o.col0 == b.col0,
        o.col1 == b.col1,
        o.row0 <= b.row0 < o.row1,
    ensures
        o == b,
{
    if o.row0 < b.row0 {
        assert(run_at(tiles, g, b.row0 - 1, o.col0 as int, o.col1 as int));
    }
    if o.row1 < b.row1 {
        assert(run_at(tiles, g, o.row1 as int, o.col0 as int, o.col1 as int));
    }
    if o.row1 > b.row1 {
        assert(run_at(tiles, g, b.row1 as int, o.col0 as int, o.col1 as int));
    }
}

/// The cells of the group's tiles, in reading order.
fn group_cells(tiles: &[Tile], g: TileGroup) -> (cells: Vec<(usize, usize)>)
    requires
        in_reading_order(tiles@),
    ensures
        forall|i: int, j: int| 0 <= i < j < cells@.len() ==> pos_lt(cells@[i], cells@[j]),
        forall|p: (usize, usize)| cells@.contains(p) <==> covers(tiles@, g, p.0 as int, p.1 as int),
        forall|i: int|
            0 <= i < cells@.len() ==> #[trigger] cells@[i].0 < usize::MAX && cells@[i].1 < usize::MAX,
{
    let mut cells: Vec<(usize, usize)> = Vec::new();
    let ghost mut last: int = -1;
    let mut i: usize = 0;
    while i < tiles.len()
        invariant
            in_reading_order(tiles@),
            i <= tiles@.len(),
            forall|a: int, b: int| 0 <= a < b < cells@.len() ==> pos_lt(cells@[a], cells@[b]),
            forall|p: (usize, usize)|
                cells@.contains(p) <==> exists|j: int|
                    0 <= j < i && #[trigger] tiles@[j].row == p.0 && tiles@[j].col == p.1
                        && in_group(tiles@[j].kind, g),
            forall|a: int|
                0 <= a < cells@.len() ==> #[trigger] cells@[a].0 < usize::MAX && cells@[a].1
                    < usize::MAX,
            cells@.len() == 0 <==> last == -1,
            cells@.len() > 0 ==> 0 <= last < i && cells@.last() == (tiles@[last].row, tiles@[last].col),
        decreases tiles@.len() - i,
    {
        let t = tiles[i];
        let keep = match g {
            TileGroup::Solid => !(t.kind == PlatformType::OneWay),
            TileGroup::OneWay => t.kind == PlatformType::OneWay,
            TileGroup::Wall => t.kind == PlatformType::Wall,
        };
        if keep {
            proof {
                if cells@.len() > 0 {
                    assert(pos_lt((tiles@[last].row, tiles@[last].col), (t.row, t.col)));
                }
            }
            let ghost old_cells = cells@;
            cells.push((t.row, t.col));
            proof {
                last = i as int;
                assert forall|a: int, b: int| 0 <= a < b < cells@.len() implies pos_lt(
                    cells@[a],
                    cells@[b],
                ) by {
                    if b == cells@.len() - 1 && a < old_cells.len() - 1 {
                        assert(pos_lt(old_cells[a], old_cells[old_cells.len() - 1]));
                    }
                }
                assert forall|p: (usize, usize)|
                    (exists|j: int|
                        0 <= j < i + 1 && #[trigger] tiles@[j].row == p.0 && tiles@[j].col == p.1
                            && in_group(tiles@[j].kind, g)) implies cells@.contains(p) by {
                    let j = choose|j: int|
                        0 <= j < i + 1 && #[trigger] tiles@[j].row == p.0 && tiles@[j].col == p.1
                            && in_group(tiles@[j].kind, g);
                    if j < i {
                        assert(old_cells.contains(p));
                        let k = choose|k: int| 0 <= k < old_cells.len() && old_cells[k] == p;
                        assert(cells@[k] == p);
                    } else {
                        assert(cells@[cells@.len() - 1] == p);
                    }
                }
                assert forall|p: (usize, usize)|
                    cells@.contains(p) implies exists|j: int|
                        0 <= j < i + 1 && #[trigger] tiles@[j].row == p.0 && tiles@[j].col == p.1
                            && in_group(tiles@[j].kind, g) by {
                    let k = choose|k: int| 0 <= k < cells@.len() && cells@[k] == p;
                    if k < old_cells.len() {
                        assert(old_cells.contains(p));
                    } else {
                        assert(tiles@[i as int].row == p.0);
                    }
                }
            }
        } else {
            proof {
                assert forall|p: (usize, usize)|
                    cells@.contains(p) implies exists|j: int|
                        0 <= j < i + 1 && #[trigger] tiles@[j].row == p.0 && tiles@[j].col == p.1
                            && in_group(tiles@[j].kind, g) by {}
                assert forall|p: (usize, usize)|
                    (exists|j: int|
                        0 <= j < i + 1 && #[trigger] tiles@[j].row == p.0 && tiles@[j].col == p.1
                            && in_group(tiles@[j].kind, g)) implies cells@.contains(p) by {
                    let j = choose|j: int|
                        0 <= j < i + 1 && #[trigger] tiles@[j].row == p.0 && tiles@[j].col == p.1
                            && in_group(tiles@[j].kind, g);
                    assert(j < i);
                }
            }
        }
        i = i + 1;
    }
    proof {
        assert forall|p: (usize, usize)|
            cells@.contains(p) <==> covers(tiles@, g, p.0 as int, p.1 as int) by {
            if covers(tiles@, g, p.0 as int, p.1 as int) {
                let j = choose|j: int|
                    0 <= j < tiles@.len() && #[trigger] tiles@[j].row == p.0 as int && tiles@[j].col
                        == p.1 as int && in_group(tiles@[j].kind, g);
                assert(tiles@[j].row == p.0 && tiles@[j].col == p.1);
            }
        }
    }
    cells
}

/// A cell between two neighbours of a strictly ordered list (or before the
/// first, or after the last) is not in the list.
proof fn lemma_cell_gap(cells: Seq<(usize, usize)>, k: int, p: (usize, usize))
    requires
        forall|i: int, j: int| 0 <= i < j < cells.len() ==> pos_lt(cells[i], cells[j]),
        0 <= k <= cells.len(),
        k > 0 ==> pos_lt(cells[k - 1], p),
        k < cells.len() ==> pos_lt(p, cells[k]),
    ensures
        !cells.contains(p),
{
    if cells.contains(p) {
        let j = choose|j: int| 0 <= j < cells.len() && cells[j] == p;
        if j < k - 1 {
            assert(pos_lt(cells[j], cells[k - 1]));
        }
        if j > k {
            assert(pos_lt(cells[k], cells[j]));
        }
    }
}

/// Reading order of run boxes: by row, then left column.
pub open spec fn run_lt(a: TileRect, b: TileRect) -> bool {
    pos_lt((a.row0, a.col0), (b.row0, b.col0))
}

/// The maximal horizontal runs of the cells, in reading order.
fn cell_runs(cells: &Vec<(usize, usize)>, Ghost(tiles): Ghost<Seq<Tile>>, g: TileGroup) -> (runs:
    Vec<TileRect>)
    requires
        forall|i: int, j: int| 0 <= i < j < cells@.len() ==> pos_lt(cells@[i], cells@[j]),
        forall|p: (usize, usize)| cells@.contains(p) <==> covers(tiles, g, p.0 as int, p.1 as int),
        forall|i: int|
            0 <= i < cells@.len() ==> #[trigger] cells@[i].0 < usize::MAX && cells@[i].1 < usize::MAX,
    ensures
        forall|q: int| 0 <= q < runs@.len() ==> #[trigger] is_run_box(tiles, g, runs@[q]),
        forall|q: int, q2: int| 0 <= q < q2 < runs@.len() ==> run_lt(runs@[q], runs@[q2]),
        forall|k: int|
            #![trigger cells@[k]]
            0 <= k < cells@.len() ==> in_some_box(runs@, cells@[k].0 as int, cells@[k].1 as int),
{
    let mut runs: Vec<TileRect> = Vec::new();
    let mut r: usize = 0;
    let mut c0: usize = 0;
    let mut c1: usize = 0;
    let n = cells.len();
    let mut k: usize = 0;
    while k < n
        invariant
            n == cells@.len(),
            k <= n,
            forall|i: int, j: int| 0 <= i < j < cells@.len() ==> pos_lt(cells@[i], cells@[j]),
            forall|p: (usize, usize)| cells@.contains(p) <==> covers(tiles, g, p.0 as int, p.1 as int),
            forall|i: int|
                0 <= i < cells@.len() ==> #[trigger] cells@[i].0 < usize::MAX && cells@[i].1
                    < usize::MAX,
            k == 0 ==> runs@.len() == 0,
            k > 0 ==> {
                &&& c0 < c1
                &&& cells@[k - 1] == (r, (c1 - 1) as usize)
                &&& forall|c: int| c0 <= c < c1 ==> #[trigger] covers(tiles, g, r as int, c)
                &&& !covers(tiles, g, r as int, c0 - 1)
                &&& forall|q: int|
                    0 <= q < runs@.len() ==> pos_lt((runs@[q].row0, runs@[q].col0), (r, c0))
            },
            forall|q: int| 0 <= q < runs@.len() ==> #[trigger] is_run_box(tiles, g, runs@[q]),
            forall|q: int, q2: int| 0 <= q < q2 < runs@.len() ==> run_lt(runs@[q], runs@[q2]),
            forall|j: int|
                #![trigger cells@[j]]
                0 <= j < k ==> (in_some_box(runs@, cells@[j].0 as int, cells@[j].1 as int)) || (cells@[j].0 == r && c0 <= cells@[j].1 < c1),
        decreases n - k,
    {
        let (x, y) = cells[k];
        if k > 0 && x == r && y == c1 {
            proof {
                assert(cells@.contains((x, y)));
            }
            c1 = c1 + 1;
        } else {
            if k > 0 {
                proof {
                    assert(pos_lt(cells@[k - 1], cells@[k as int]));
                    lemma_cell_gap(cells@, k as int, (r, c1));
                }
                let ghost old_runs = runs@;
                runs.push(TileRect { col0: c0, col1: c1, row0: r, row1: r + 1 });
                proof {
                    assert(is_run_box(tiles, g, runs@[runs@.len() - 1]));
                    assert forall|j: int|
                        #![trigger cells@[j]]
                        0 <= j < k implies in_some_box(runs@, cells@[j].0 as int, cells@[j].1 as int) by {
                        if in_some_box(old_runs, cells@[j].0 as int, cells@[j].1 as int) {
                            let q = choose|q: int|
                                0 <= q < old_runs.len() && #[trigger] box_holds(
                                    old_runs[q],
                                    cells@[j].0 as int,
                                    cells@[j].1 as int,
                                );
                            assert(runs@[q] == old_runs[q]);
                        } else {
                            assert(box_holds(
                                runs@[runs@.len() - 1],
                                cells@[j].0 as int,
                                cells@[j].1 as int,
                            ));
                        }
                    }
                    assert(pos_lt((r, c0), cells@[k as int]));
                    assert forall|q: int| 0 <= q < runs@.len() implies pos_lt(
                        (runs@[q].row0, runs@[q].col0),
                        (x, y),
                    ) by {
                        if q < runs@.len() - 1 {
                            assert(runs@[q] == old_runs[q]);
                            assert(pos_lt((old_runs[q].row0, old_runs[q].col0), (r, c0)));
                        }
                    }
                }
            }
            proof {
                if y > 0 {
                    if k > 0 {
                        assert(pos_lt(cells@[k - 1], cells@[k as int]));
                    }
                    lemma_cell_gap(cells@, k as int, (x, (y - 1) as usize));
                }
            }
            r = x;
            c0 = y;
            c1 = y + 1;
            proof {
                assert(cells@.contains((x, y)));
            }
        }
        k = k + 1;
    }
    if n > 0 {
        proof {
            lemma_cell_gap(cells@, n as int, (r, c1));
        }
        let ghost old_runs = runs@;
        runs.push(TileRect { col0: c0, col1: c1, row0: r, row1: r + 1 });
        proof {
            assert(is_run_box(tiles, g, runs@[runs@.len() - 1]));
            assert forall|j: int|
                #![trigger cells@[j]]
                0 <= j < n implies in_some_box(runs@, cells@[j].0 as int, cells@[j].1 as int) by {
                if in_some_box(old_runs, cells@[j].0 as int, cells@[j].1 as int) {
                    let q = choose|q: int|
                        0 <= q < old_runs.len() && #[trigger] box_holds(
                            old_runs[q],
                            cells@[j].0 as int,
                            cells@[j].1 as int,
                        );
                    assert(runs@[q] == old_runs[q]);
                } else {
                    assert(box_holds(runs@[runs@.len() - 1], cells@[j].0 as int, cells@[j].1 as int));
                }
            }
        }
    }
    runs
}

fn box_lt(a: &TileRect, b: &TileRect) -> (r: bool)
    ensures
        r == box_before(*a, *b),
{
    a.col0 < b.col0 || (a.col0 == b.col0 && (a.col1 < b.col1 || (a.col1 == b.col1 && a.row0
        < b.row0)))
}

/// Orders boxes with distinct keys by `box_before`.
fn sort_boxes(v: &Vec<TileRect>) -> (out: Vec<TileRect>)
    requires
        forall|i: int, j: int|
            0 <= i < j < v@.len() ==> box_before(v@[i], v@[j]) || box_before(v@[j], v@[i]),
    ensures
        sorted_boxes(out@),
        forall|b: TileRect| out@.contains(b) <==> v@.contains(b),
{
    let mut out: Vec<TileRect> = Vec::new();
    let mut i: usize = 0;
    while i < v.len()
        invariant
            i <= v@.len(),
            forall|a: int, b: int|
                0 <= a < b < v@.len() ==> box_before(v@[a], v@[b]) || box_before(v@[b], v@[a]),
            sorted_boxes(out@),
            forall|q: int|
                0 <= q < out@.len() ==> exists|j: int| 0 <= j < i && v@[j] == #[trigger] out@[q],
            forall|j: int| 0 <= j < i ==> out@.contains(#[trigger] v@[j]),
        decreases v@.len() - i,
    {
        let x = v[i];
        let mut p: usize = 0;
        while p < out.len() && box_lt(&out[p], &x)
            invariant
                p <= out@.len(),
                forall|q: int| 0 <= q < p ==> box_before(#[trigger] out@[q], x),
            decreases out@.len() - p,
        {
            p = p + 1;
        }
        let ghost old_out = out@;
        proof {
            assert forall|q: int| p <= q < old_out.len() implies box_before(x, #[trigger] old_out[q]) by {
                let j = choose|j: int| 0 <= j < i && v@[j] == old_out[q];
                let j0 = choose|j: int| 0 <= j < i && v@[j] == old_out[p as int];
                assert(box_before(v@[j0], v@[i as int]) || box_before(v@[i as int], v@[j0]));
                if q > p {
                    assert(box_before(old_out[p as int], old_out[q]));
                }
            }
        }
        out.insert(p, x);
        proof {
            assert(out@ == old_out.insert(p as int, x));
            assert forall|a: int, b: int| 0 <= a < b < out@.len() implies box_before(
                out@[a],
                out@[b],
            ) by {
                if b < p {
                    assert(out@[a] == old_out[a] && out@[b] == old_out[b]);
                } else if b == p {
                    assert(out@[a] == old_out[a]);
                } else if a < p {
                    assert(out@[a] == old_out[a] && out@[b] == old_out[b - 1]);
                    assert(box_before(x, old_out[b - 1]));
                } else if a == p {
                    assert(out@[b] == old_out[b - 1]);
                } else {
                    assert(out@[a] == old_out[a - 1] && out@[b] == old_out[b - 1]);
                }
            }
            assert forall|q: int|
                0 <= q < out@.len() implies exists|j: int|
                    0 <= j < i + 1 && v@[j] == #[trigger] out@[q] by {
                if q < p {
                    assert(out@[q] == old_out[q]);
                    let j = choose|j: int| 0 <= j < i && v@[j] == old_out[q];
                } else if q == p {
                    assert(v@[i as int] == out@[q]);
                } else {
                    assert(out@[q] == old_out[q - 1]);
                    let j = choose|j: int| 0 <= j < i && v@[j] == old_out[q - 1];
                }
            }
            assert forall|j: int| 0 <= j < i + 1 implies out@.contains(#[trigger] v@[j]) by {
                if j < i {
                    let q = choose|q: int| 0 <= q < old_out.len() && old_out[q] == v@[j];
                    if q < p {
                        assert(out@[q] == v@[j]);
                    } else {
                        assert(out@[q + 1] == v@[j]);
                    }
                } else {
                    assert(out@[p as int] == v@[j]);
                }
            }
        }
        i = i + 1;
    }
    proof {
        assert forall|b: TileRect| out@.contains(b) <==> v@.contains(b) by {
            if out@.contains(b) {
                let q = choose|q: int| 0 <= q < out@.len() && out@[q] == b;
                let j = choose|j: int| 0 <= j < i && v@[j] == out@[q];
            }
            if v@.contains(b) {
                let j = choose|j: int| 0 <= j < v@.len() && v@[j] == b;
                assert(out@.contains(v@[j]));
            }
        }
    }
    out
}

/// A box strictly between two neighbours of a sorted list (or before the
/// first, or after the last) is not in the list.
proof fn lemma_box_gap(s: Seq<TileRect>, k: int, x: TileRect)
    requires
        sorted_boxes(s),
        0 <= k <= s.len(),
        k > 0 ==> box_before(s[k - 1], x),
        k < s.len() ==> box_before(x, s[k]),
    ensures
        !s.contains(x),
{
    if s.contains(x) {
        let j = choose|j: int| 0 <= j < s.len() && s[j] == x;
        if j < k - 1 {
            assert(box_before(s[j], s[k - 1]));
        }
        if j > k {
            assert(box_before(s[k], s[j]));
        }
    }
}

/// Some box of the list has the span of `x` and reaches over its top row.
pub open spec fn stacked_in(boxes: Seq<TileRect>, x: TileRect) -> bool {
    exists|q: int|
        0 <= q < boxes.len() && #[trigger] boxes[q].col0 == x.col0 && boxes[q].col1 == x.col1
            && boxes[q].row0 <= x.row0 < boxes[q].row1
}

/// Stacks runs of the same span on consecutive rows into taller boxes.
fn stack_runs(runs: &Vec<TileRect>, Ghost(tiles): Ghost<Seq<Tile>>, g: TileGroup) -> (boxes: Vec<
    TileRect,
>)
    requires
        stacks(g),
        in_reading_order(tiles),
        sorted_boxes(runs@),
        forall|b: TileRect| runs@.contains(b) <==> is_run_box(tiles, g, b),
    ensures
        sorted_boxes(boxes@),
        forall|q: int| 0 <= q < boxes@.len() ==> #[trigger] merged_box(tiles, g, boxes@[q]),
        forall|j: int| 0 <= j < runs@.len() ==> #[trigger] stacked_in(boxes@, runs@[j]),
{
    let mut boxes: Vec<TileRect> = Vec::new();
    let mut cur = TileRect { col0: 0, col1: 0, row0: 0, row1: 0 };
    let n = runs.len();
    let mut k: usize = 0;
    while k < n
        invariant
            n == runs@.len(),
            k <= n,
            stacks(g),
            in_reading_order(tiles),
            sorted_boxes(runs@),
            forall|b: TileRect| runs@.contains(b) <==> is_run_box(tiles, g, b),
            k == 0 ==> boxes@.len() == 0,
            k > 0 ==> {
                &&& cur.row0 < cur.row1
                &&& forall|r: int|
                    cur.row0 <= r < cur.row1 ==> #[trigger] run_at(
                        tiles,
                        g,
                        r,
                        cur.col0 as int,
                        cur.col1 as int,
                    )
                &&& !run_at(tiles, g, cur.row0 - 1, cur.col0 as int, cur.col1 as int)
                &&& runs@[k - 1] == TileRect { row0: (cur.row1 - 1) as usize, ..cur }
                &&& forall|q: int| 0 <= q < boxes@.len() ==> box_before(boxes@[q], cur)
            },
            sorted_boxes(boxes@),
            forall|q: int| 0 <= q < boxes@.len() ==> #[trigger] merged_box(tiles, g, boxes@[q]),
            forall|j: int|
                0 <= j < k ==> #[trigger] stacked_in(boxes@, runs@[j]) || (runs@[j].col0
                    == cur.col0 && runs@[j].col1 == cur.col1 && cur.row0 <= runs@[j].row0
                    < cur.row1),
        decreases n - k,
    {
        let x = runs[k];
        proof {
            assert(runs@.contains(x));
            assert(is_run_box(tiles, g, x));
        }
        if k > 0 && x.col0 == cur.col0 && x.col1 == cur.col1 && x.row0 == cur.row1 {
            cur.row1 = x.row1;
        } else {
            if k > 0 {
                let ghost y = TileRect { row0: cur.row1, row1: (cur.row1 + 1) as usize, ..cur };
                proof {
                    assert(box_before(runs@[k - 1], x));
                    if run_at(tiles, g, cur.row1 as int, cur.col0 as int, cur.col1 as int) {
                        assert(covers(tiles, g, cur.row1 as int, cur.col0 as int));
                        let i = choose|i: int|
                            0 <= i < tiles.len() && #[trigger] tiles[i].row == cur.row1 as int
                                && tiles[i].col == cur.col0 as int && in_group(tiles[i].kind, g);
                        assert(tiles[i].row < usize::MAX);
                        assert(is_run_box(tiles, g, y));
                        lemma_box_gap(runs@, k as int, y);
                    }
                }
                let ghost old_boxes = boxes@;
                boxes.push(cur);
                proof {
                    assert(merged_box(tiles, g, cur));
                    assert forall|j: int| 0 <= j < k implies #[trigger] stacked_in(
                        boxes@,
                        runs@[j],
                    ) by {
                        if stacked_in(old_boxes, runs@[j]) {
                            let q = choose|q: int|
                                0 <= q < old_boxes.len() && #[trigger] old_boxes[q].col0
                                    == runs@[j].col0 && old_boxes[q].col1 == runs@[j].col1
                                    && old_boxes[q].row0 <= runs@[j].row0 < old_boxes[q].row1;
                            assert(boxes@[q] == old_boxes[q]);
                        } else {
                            assert(boxes@[boxes@.len() - 1] == cur);
                        }
                    }
                    assert(box_before(cur, x)) by {
                        assert(box_before(runs@[k - 1], x));
                    }
                    assert forall|q: int| 0 <= q < boxes@.len() implies box_before(
                        boxes@[q],
                        x,
                    ) by {
                        if q < boxes@.len() - 1 {
                            assert(boxes@[q] == old_boxes[q]);
                            assert(box_before(old_boxes[q], cur));
                        }
                    }
                }
            }
            proof {
                if x.row0 > 0 {
                    let z = TileRect { row0: (x.row0 - 1) as usize, row1: x.row0, ..x };
                    if k > 0 {
                        assert(box_before(runs@[k - 1], x));
                    }
                    lemma_box_gap(runs@, k as int, z);
                    assert(!is_run_box(tiles, g, z));
                } else if run_at(tiles, g, -1, x.col0 as int, x.col1 as int) {
                    assert(covers(tiles, g, -1, x.col0 as int));
                }
            }
            cur = x;
        }
        k = k + 1;
    }
    if n > 0 {
        proof {
            let y = TileRect { row0: cur.row1, row1: (cur.row1 + 1) as usize, ..cur };
            if run_at(tiles, g, cur.row1 as int, cur.col0 as int, cur.col1 as int) {
                assert(covers(tiles, g, cur.row1 as int, cur.col0 as int));
                let i = choose|i: int|
                    0 <= i < tiles.len() && #[trigger] tiles[i].row == cur.row1 as int
                        && tiles[i].col == cur.col0 as int && in_group(tiles[i].kind, g);
                assert(tiles[i].row < usize::MAX);
                assert(is_run_box(tiles, g, y));
                lemma_box_gap(runs@, n as int, y);
            }
        }
        let ghost old_boxes = boxes@;
        boxes.push(cur);
        proof {
            assert(merged_box(tiles, g, cur));
            assert forall|j: int| 0 <= j < n implies #[trigger] stacked_in(boxes@, runs@[j]) by {
                if stacked_in(old_boxes, runs@[j]) {
                    let q = choose|q: int|
                        0 <= q < old_boxes.len() && #[trigger] old_boxes[q].col0 == runs@[j].col0
                            && old_boxes[q].col1 == runs@[j].col1 && old_boxes[q].row0
                            <= runs@[j].row0 < old_boxes[q].row1;
                    assert(boxes@[q] == old_boxes[q]);
                } else {
                    assert(boxes@[boxes@.len() - 1] == cur);
                }
            }
        }
    }
    boxes
}

/// `boxes` are exactly the merged boxes of the group, each once, in order.
pub open spec fn merged_list(tiles: Seq<Tile>, g: TileGroup, boxes: Seq<TileRect>) -> bool {
    &&& sorted_boxes(boxes)
    &&& forall|q: int| 0 <= q < boxes.len() ==> #[trigger] merged_box(tiles, g, boxes[q])
    &&& forall|b: TileRect| merged_box(tiles, g, b) ==> boxes.contains(b)
}

/// Merges the tiles of one group into collision boxes: exactly the merged
/// boxes of the group, each once, ordered by left column, right column, then
/// top row.
pub fn merge_tiles(tiles: &[Tile], g: TileGroup) -> (boxes: Vec<TileRect>)
    requires
        in_reading_order(tiles@),
    ensures
        merged_list(tiles@, g, boxes@),
{
    let cells = group_cells(tiles, g);
    let runs = cell_runs(&cells, Ghost(tiles@), g);
    proof {
        assert forall|i: int, j: int| 0 <= i < j < runs@.len() implies box_before(
            runs@[i],
            runs@[j],
        ) || box_before(runs@[j], runs@[i]) by {
            assert(run_lt(runs@[i], runs@[j]));
        }
    }
    let sorted = sort_boxes(&runs);
    proof {
        assert forall|b: TileRect| sorted@.contains(b) <==> is_run_box(tiles@, g, b) by {
            if sorted@.contains(b) {
                let q = choose|q: int| 0 <= q < runs@.len() && runs@[q] == b;
                assert(is_run_box(tiles@, g, runs@[q]));
            }
            if is_run_box(tiles@, g, b) {
                assert(covers(tiles@, g, b.row0 as int, b.col0 as int));
                assert(cells@.contains((b.row0, b.col0)));
                let k = choose|k: int| 0 <= k < cells@.len() && cells@[k] == (b.row0, b.col0);
                assert(in_some_box(runs@, cells@[k].0 as int, cells@[k].1 as int));
                let q = choose|q: int|
                    0 <= q < runs@.len() && #[trigger] box_holds(
                        runs@[q],
                        b.row0 as int,
                        b.col0 as int,
                    );
                assert(is_run_box(tiles@, g, runs@[q]));
                lemma_run_unique(
                    tiles@,
                    g,
                    b.row0 as int,
                    runs@[q].col0 as int,
                    runs@[q].col1 as int,
                    b.col0 as int,
                    b.col1 as int,
                );
                assert(runs@[q] == b);
                assert(runs@.contains(b));
            }
        }
    }
    let stacking = match g {
        TileGroup::OneWay => false,
        _ => true,
    };
    if !stacking {
        proof {
            assert forall|q: int| 0 <= q < sorted@.len() implies #[trigger] merged_box(
                tiles@,
                g,
                sorted@[q],
            ) by {
                assert(sorted@.contains(sorted@[q]));
            }
        }
        return sorted;
    }
    let boxes = stack_runs(&sorted, Ghost(tiles@), g);
    proof {
        assert forall|b: TileRect| merged_box(tiles@, g, b) implies boxes@.contains(b) by {
            assert(run_at(tiles@, g, b.row0 as int, b.col0 as int, b.col1 as int));
            let rb = TileRect { row1: (b.row0 + 1) as usize, ..b };
            assert(is_run_box(tiles@, g, rb));
            assert(sorted@.contains(rb));
            let j = choose|j: int| 0 <= j < sorted@.len() && sorted@[j] == rb;
            assert(stacked_in(boxes@, sorted@[j]));
            let q = choose|q: int|
                0 <= q < boxes@.len() && #[trigger] boxes@[q].col0 == rb.col0 && boxes@[q].col1
                    == rb.col1 && boxes@[q].row0 <= rb.row0 < boxes@[q].row1;
            assert(merged_box(tiles@, g, boxes@[q]));
            lemma_box_unique(tiles@, g, boxes@[q], b);
        }
    }
    boxes
}

/// The left end of the run through column `c` of row `r`.
spec fn run_start(tiles: Seq<Tile>, g: TileGroup, r: int, c: int) -> int
    decreases c,
{
    if c > 0 && covers(tiles, g, r, c - 1) {
        run_start(tiles, g, r, c - 1)
    } else {
        c
    }
}

/// The first uncovered column of row `r` from column `c` on.
spec fn run_end(tiles: Seq<Tile>, g: TileGroup, r: int, c: int) -> int
    decreases usize::MAX - c,
{
    if 0 <= c < usize::MAX && covers(tiles, g, r, c) {
        run_end(tiles, g, r, c + 1)
    } else {
        c
    }
}

/// The top row of the stack of run `c0 .. c1` through row `r`.
spec fn stack_start(tiles: Seq<Tile>, g: TileGroup, r: int, c0: int, c1: int) -> int
    decreases r,
{
    if r > 0 && run_at(tiles, g, r - 1, c0, c1) {
        stack_start(tiles, g, r - 1, c0, c1)
    } else {
        r
    }
}

/// The first row from `r` on without the run `c0 .. c1`.
spec fn stack_end(tiles: Seq<Tile>, g: TileGroup, r: int, c0: int, c1: int) -> int
    decreases usize::MAX - r,
{
    if 0 <= r < usize::MAX && run_at(tiles, g, r, c0, c1) {
        stack_end(tiles, g, r + 1, c0, c1)
    } else {
        r
    }
}

proof fn lemma_no_tile_at_max(tiles: Seq<Tile>, g: TileGroup, r: int, c: int)
    requires
        in_reading_order(tiles),
        r >= usize::MAX || c >= usize::MAX || r < 0 || c < 0,
    ensures
        !covers(tiles, g, r, c),
{
    if covers(tiles, g, r, c) {
        let i = choose|i: int|
            0 <= i < tiles.len() && #[trigger] tiles[i].row == r && tiles[i].col == c && in_group(
                tiles[i].kind,
                g,
            );
        assert(tiles[i].row < usize::MAX && tiles[i].col < usize::MAX);
    }
}

proof fn lemma_run_start(tiles: Seq<Tile>, g: TileGroup, r: int, c: int)
    requires
        0 <= c,
    ensures
        0 <= run_start(tiles, g, r, c) <= c,
        forall|x: int| run_start(tiles, g, r, c) <= x < c ==> #[trigger] covers(tiles, g, r, x),
        !covers(tiles, g, r, run_start(tiles, g, r, c) - 1),
    decreases c,
{
    if c > 0 && covers(tiles, g, r, c - 1) {
        lemma_run_start(tiles, g, r, c - 1);
    } else if c == 0 {
        if covers(tiles, g, r, -1) {
            let i = choose|i: int|
                0 <= i < tiles.len() && #[trigger] tiles[i].row == r && tiles[i].col == -1
                    && in_group(tiles[i].kind, g);
        }
    }
}

proof fn lemma_run_end(tiles: Seq<Tile>, g: TileGroup, r: int, c: int)
    requires
        in_reading_order(tiles),
        0 <= c <= usize::MAX,
    ensures
        c <= run_end(tiles, g, r, c) <= usize::MAX,
        forall|x: int| c <= x < run_end(tiles, g, r, c) ==> #[trigger] covers(tiles, g, r, x),
        !covers(tiles, g, r, run_end(tiles, g, r, c)),
    decreases usize::MAX - c,
{
    if c < usize::MAX && covers(tiles, g, r, c) {
        lemma_run_end(tiles, g, r, c + 1);
    } else if c >= usize::MAX {
        lemma_no_tile_at_max(tiles, g, r, c);
    }
}

proof fn lemma_stack_start(tiles: Seq<Tile>, g: TileGroup, r: int, c0: int, c1: int)
    requires
        0 <= r,
    ensures
        0 <= stack_start(tiles, g, r, c0, c1) <= r,
        forall|x: int|
            stack_start(tiles, g, r, c0, c1) <= x < r ==> #[trigger] run_at(tiles, g, x, c0, c1),
        !run_at(tiles, g, stack_start(tiles, g, r, c0, c1) - 1, c0, c1),
    decreases r,
{
    if r > 0 && run_at(tiles, g, r - 1, c0, c1) {
        lemma_stack_start(tiles, g, r - 1, c0, c1);
    } else if r == 0 && run_at(tiles, g, -1, c0, c1) {
        assert(covers(tiles, g, -1, c0));
        let i = choose|i: int|
            0 <= i < tiles.len() && #[trigger] tiles[i].row == -1 && tiles[i].col == c0 && in_group(
                tiles[i].kind,
                g,
            );
    }
}

proof fn lemma_stack_end(tiles: Seq<Tile>, g: TileGroup, r: int, c0: int, c1: int)
    requires
        in_reading_order(tiles),
        0 <= r <= usize::MAX,
    ensures
        r <= stack_end(tiles, g, r, c0, c1) <= usize::MAX,
        forall|x: int|
            r <= x < stack_end(tiles, g, r, c0, c1) ==> #[trigger] run_at(tiles, g, x, c0, c1),
        !run_at(tiles, g, stack_end(tiles, g, r, c0, c1), c0, c1),
    decreases usize::MAX - r,
{
    if r < usize::MAX && run_at(tiles, g, r, c0, c1) {
        lemma_stack_end(tiles, g, r + 1, c0, c1);
    } else if r >= usize::MAX && run_at(tiles, g, r, c0, c1) {
        lemma_no_tile_at_max(tiles, g, r, c0);
    }
}

/// Merging keeps the geometry: a cell holds a tile of the group exactly when
/// it lies in one of the merged boxes, and it never lies in two of them.
pub proof fn lemma_boxes_partition_tiles(
    tiles: Seq<Tile>,
    g: TileGroup,
    boxes: Seq<TileRect>,
    r: int,
    c: int,
)
    requires
        in_reading_order(tiles),
        merged_list(tiles, g, boxes),
    ensures
        covers(tiles, g, r, c) <==> in_some_box(boxes, r, c),
        forall|i: int, j: int|
            0 <= i < j < boxes.len() ==> !(box_holds(boxes[i], r, c) && box_holds(boxes[j], r, c)),
{
    if covers(tiles, g, r, c) {
        let t = choose|i: int|
            0 <= i < tiles.len() && #[trigger] tiles[i].row == r && tiles[i].col == c && in_group(
                tiles[i].kind,
                g,
            );
        assert(tiles[t].row < usize::MAX && tiles[t].col < usize::MAX);
        lemma_run_start(tiles, g, r, c);
        lemma_run_end(tiles, g, r, c);
        let c0 = run_start(tiles, g, r, c);
        let c1 = run_end(tiles, g, r, c);
        assert forall|x: int| c0 <= x < c1 implies #[trigger] covers(tiles, g, r, x) by {}
        assert(run_at(tiles, g, r, c0, c1));
        let b = if stacks(g) {
            lemma_stack_start(tiles, g, r, c0, c1);
            lemma_stack_end(tiles, g, r, c0, c1);
            let r0 = stack_start(tiles, g, r, c0, c1);
            let r1 = stack_end(tiles, g, r, c0, c1);
            let b = TileRect { col0: c0 as usize, col1: c1 as usize, row0: r0 as usize, row1: r1 as usize };
            assert forall|x: int| b.row0 <= x < b.row1 implies #[trigger] run_at(
                tiles,
                g,
                x,
                b.col0 as int,
                b.col1 as int,
            ) by {}
            assert(merged_box(tiles, g, b));
            b
        } else {
            let b = TileRect {
                col0: c0 as usize,
                col1: c1 as usize,
                row0: r as usize,
                row1: (r + 1) as usize,
            };
            assert(merged_box(tiles, g, b));
            b
        };
        assert(boxes.contains(b));
        let q = choose|q: int| 0 <= q < boxes.len() && boxes[q] == b;
        assert(box_holds(boxes[q], r, c));
    }
    if in_some_box(boxes, r, c) {
        let q = choose|q: int| 0 <= q < boxes.len() && #[trigger] box_holds(boxes[q], r, c);
        assert(merged_box(tiles, g, boxes[q]));
        assert(run_at(tiles, g, r, boxes[q].col0 as int, boxes[q].col1 as int));
    }
    assert forall|i: int, j: int|
        0 <= i < j < boxes.len() implies !(box_holds(boxes[i], r, c) && box_holds(boxes[j], r, c)) by {
        if box_holds(boxes[i], r, c) && box_holds(boxes[j], r, c) {
            assert(merged_box(tiles, g, boxes[i]));
            assert(merged_box(tiles, g, boxes[j]));
            let bi = boxes[i];
            let bj = boxes[j];
            assert(run_at(tiles, g, r, bi.col0 as int, bi.col1 as int));
            assert(run_at(tiles, g, r, bj.col0 as int, bj.col1 as int));
            if bi.col0 <= bj.col0 {
                lemma_run_unique(tiles, g, r, bi.col0 as int, bi.col1 as int, bj.col0 as int, bj.col1 as int);
            } else {
                lemma_run_unique(tiles, g, r, bj.col0 as int, bj.col1 as int, bi.col0 as int, bi.col1 as int);
            }
            if stacks(g) {
                if bi.row0 <= bj.row0 {
                    lemma_box_unique(tiles, g, bi, bj);
                } else {
                    lemma_box_unique(tiles, g, bj, bi);
                }
            }
            assert(box_before(bi, bj));
        }
    }
}

} // verus!
