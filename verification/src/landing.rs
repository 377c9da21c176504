use vstd::prelude::*;
use crate::faction::{faction_at, faction_by_index, FactionId};
use crate::map_plan::{cell_count, cell_index, half_rows};
use crate::terrain::{passable_ground, TerrainType};

verus! {

/// Columns between neighbouring landing columns: a sixth of the width, at
/// least one.
pub open spec fn col_step(w: int) -> int {
    if w / 6 > 1 {
        w / 6
    } else {
        1
    }
}

/// The column where faction `i` (in the order A to F) looks for land.
pub open spec fn base_col(w: int, i: int) -> int {
    (i * col_step(w) + col_step(w) / 2) % w
}

/// The rows tried first, relative to the equator, in order.
pub open spec fn row_offset(j: int) -> int {
    if j == 0 {
        0
    } else if j % 2 == 1 {
        (j + 1) / 2
    } else {
        -(j / 2)
    }
}

/// `o` clamped to the map's rows.
pub open spec fn clamp_row(o: int, half: int) -> int {
    if o < -half {
        -half
    } else if o > half {
        half
    } else {
        o
    }
}

/// A good landing tile: passable ground that is not toxic swamp.
pub open spec fn preferred_tile(t: Option<TerrainType>) -> bool {
    t is Some && passable_ground(t->0) && t->0 != TerrainType::ToxicSwamp
}

/// An acceptable landing tile: passable ground.
pub open spec fn acceptable_tile(t: Option<TerrainType>) -> bool {
    t is Some && passable_ground(t->0)
}

/// The tile at (column, row) of a row-major list of cells.
pub open spec fn tile_at(tiles: Seq<Option<TerrainType>>, w: int, h: int, col: int, row: int) -> Option<
    TerrainType,
> {
    tiles[cell_index(w, h, col, row)]
}

/// The first of the row offsets `j..9` whose clamped row in column `base`
/// is a good landing tile.
pub open spec fn first_preferred(tiles: Seq<Option<TerrainType>>, w: int, h: int, base: int, j: int) -> Option<
    int,
>
    decreases 9 - j,
{
    if j >= 9 {
        None
    } else if preferred_tile(tile_at(tiles, w, h, base, clamp_row(row_offset(j), half_rows(h)))) {
        Some(j)
    } else {
        first_preferred(tiles, w, h, base, j + 1)
    }
}

/// The cell of step `k` of the wide search: rows from south to north, and
/// in each row the columns from three west to three east of `base`,
/// wrapping round the map.
pub open spec fn wide_cell(w: int, h: int, base: int, k: int) -> (int, int) {
    ((base + k % 7 - 3) % w, -half_rows(h) + k / 7)
}

/// The first step from `k` on of the wide search that finds an acceptable
/// tile.
pub open spec fn first_acceptable(tiles: Seq<Option<TerrainType>>, w: int, h: int, base: int, k: int) -> Option<
    int,
>
    decreases (2 * half_rows(h) + 1) * 7 - k,
{
    if k >= (2 * half_rows(h) + 1) * 7 {
        None
    } else if acceptable_tile(tile_at(tiles, w, h, wide_cell(w, h, base, k).0, wide_cell(w, h, base, k).1)) {
        Some(k)
    } else {
        first_acceptable(tiles, w, h, base, k + 1)
    }
}

/// The landing cell (column, row) of faction `i`: in its column, the first
/// good tile at rows 0, 1, -1, 2, -2, 3, -3, 4, -4 (clamped to the map);
/// else the first acceptable tile of the wide search; else the equator.
pub open spec fn landing_cell(tiles: Seq<Option<TerrainType>>, w: int, h: int, i: int) -> (int, int) {
    let base = base_col(w, i);
    match first_preferred(tiles, w, h, base, 0) {
        Some(j) => (base, clamp_row(row_offset(j), half_rows(h))),
        None => match first_acceptable(tiles, w, h, base, 0) {
            Some(k) => wide_cell(w, h, base, k),
            None => (base, 0),
        },
    }
}

/// The tile at (column, row), for a cell of the map.
fn tile_exec(tiles: &Vec<Option<TerrainType>>, w: i32, h: i32, col: i64, row: i64) -> (t: Option<
    TerrainType,
>)
    requires
        w > 0,
        h >= 0,
        tiles@.len() == cell_count(w as int, h as int),
        0 <= col < w,
        -half_rows(h as int) <= row <= half_rows(h as int),
    ensures
        t == tile_at(tiles@, w as int, h as int, col as int, row as int),
{
    let n: usize = tiles.len();
    let ri: usize = (row + (h / 2) as i64) as usize;
    proof {
        let rows = 2 * half_rows(h as int) + 1;
        assert(0 <= ri * w <= ri * w + col < rows * w) by (nonlinear_arith)
            requires
                0 <= ri < rows,
                0 <= col < w,
        ;
        assert(rows * w == n);
    }
    tiles[ri * (w as usize) + col as usize]
}

fn row_offset_exec(j: usize) -> (o: i64)
    requires
        j < 9,
    ensures
        o == row_offset(j as int),
{
    if j == 0 {
        0
    } else if j % 2 == 1 {
        ((j + 1) / 2) as i64
    } else {
        -((j / 2) as i64)
    }
}

fn clamp_row_exec(o: i64, half: i64) -> (r: i64)
    requires
        half >= 0,
    ensures
        r == clamp_row(o as int, half as int),
{
    if o < -half {
        -half
    } else if o > half {
        half
    } else {
        o
    }
}

/// The landing cell of faction `i`, as `landing_cell` states.
fn landing_cell_exec(tiles: &Vec<Option<TerrainType>>, w: i32, h: i32, i: usize) -> (c: (i32, i32))
    requires
        w > 0,
        h >= 0,
        i < 6,
        tiles@.len() == cell_count(w as int, h as int),
    ensures
        (c.0 as int, c.1 as int) == landing_cell(tiles@, w as int, h as int, i as int),
{
    let step: i32 = if w / 6 > 1 {
        w / 6
    } else {
        1
    };
    proof {
        assert(0 <= i * step <= 5 * step) by (nonlinear_arith)
            requires
                0 <= i < 6,
                step >= 1,
        ;
    }
    let base: i32 = ((i as i32) * step + step / 2) % w;
    let half: i64 = (h / 2) as i64;
    let ghost ts = tiles@;
    let mut j: usize = 0;
    while j < 9
        invariant
            w > 0,
            h >= 0,
            ts == tiles@,
            tiles@.len() == cell_count(w as int, h as int),
            half == half_rows(h as int),
            base == base_col(w as int, i as int),
            0 <= base < w,
            j <= 9,
            first_preferred(ts, w as int, h as int, base as int, 0) == first_preferred(
                ts,
                w as int,
                h as int,
                base as int,
                j as int,
            ),
        decreases 9 - j,
    {
        let row = clamp_row_exec(row_offset_exec(j), half);
        let t = tile_exec(tiles, w, h, base as i64, row);
        let good = match t {
            Some(terrain) => terrain.is_passable_ground() && terrain != TerrainType::ToxicSwamp,
            None => false,
        };
        if good {
            return (base, row as i32);
        }
        j = j + 1;
    }
    let rows: u64 = 2 * (half as u64) + 1;
    let total: u64 = rows * 7;
    let mut k: u64 = 0;
    while k < total
        invariant
            w > 0,
            h >= 0,
            ts == tiles@,
            tiles@.len() == cell_count(w as int, h as int),
            half == half_rows(h as int),
            rows == 2 * half_rows(h as int) + 1,
            total == rows * 7,
            base == base_col(w as int, i as int),
            0 <= base < w,
            k <= total,
            first_preferred(ts, w as int, h as int, base as int, 0) is None,
            first_acceptable(ts, w as int, h as int, base as int, 0) == first_acceptable(
                ts,
                w as int,
                h as int,
                base as int,
                k as int,
            ),
        decreases total - k,
    {
        let dc: i64 = (k % 7) as i64 - 3;
        let row: i64 = -half + (k / 7) as i64;
        let wl: i64 = w as i64;
        let col: i64 = (base as i64 + dc + 3 * wl) % wl;
        proof {
            let x = base as int + dc;
            vstd::arithmetic::div_mod::lemma_mod_multiples_vanish(3, x, w as int);
            assert(w * 3 + x == base as int + dc + 3 * wl);
            assert(col == x % (w as int));
            assert(0 <= col < w);
            assert(0 <= k / 7 < rows);
        }
        let t = tile_exec(tiles, w, h, col, row);
        let ok = match t {
            Some(terrain) => terrain.is_passable_ground(),
            None => false,
        };
        if ok {
            return (col as i32, row as i32);
        }
        k = k + 1;
    }
    (base, 0)
}

/// The landing cell (column, row) of each faction, in the order A to F, as
/// `landing_cell` states, on a `w` by `h` map whose cells' terrain is listed
/// row by row from the southernmost row (`None` where there is no tile).
pub fn landing_sites(tiles: &Vec<Option<TerrainType>>, w: i32, h: i32) -> (s: Vec<(FactionId, (i32, i32))>)
    requires
        w > 0,
        h >= 0,
        tiles@.len() == cell_count(w as int, h as int),
    ensures
        s@.len() == 6,
        forall|i: int|
            0 <= i < 6 ==> (#[trigger] s@[i]).0 == faction_at(i) && (s@[i].1.0 as int, s@[i].1.1 as int)
                == landing_cell(tiles@, w as int, h as int, i),
{
    let mut s: Vec<(FactionId, (i32, i32))> = Vec::new();
    let mut i: usize = 0;
    while i < 6
        invariant
            w > 0,
            h >= 0,
            tiles@.len() == cell_count(w as int, h as int),
            i <= 6,
            s@.len() == i,
            forall|k: int|
                0 <= k < i ==> (#[trigger] s@[k]).0 == faction_at(k) && (s@[k].1.0 as int, s@[k].1.1 as int)
                    == landing_cell(tiles@, w as int, h as int, k),
        decreases 6 - i,
    {
        let c = landing_cell_exec(tiles, w, h, i);
        s.push((faction_by_index(i), c));
        i = i + 1;
    }
    s
}

proof fn lemma_first_preferred_at(
    tiles: Seq<Option<TerrainType>>,
    w: int,
    h: int,
    base: int,
    k: int,
    j: int,
)
    requires
        0 <= k <= j < 9,
        preferred_tile(tile_at(tiles, w, h, base, clamp_row(row_offset(j), half_rows(h)))),
        forall|m: int|
            k <= m < j ==> !preferred_tile(
                #[trigger] tile_at(tiles, w, h, base, clamp_row(row_offset(m), half_rows(h))),
            ),
    ensures
        first_preferred(tiles, w, h, base, k) == Some(j),
    decreases j - k,
{
    if k < j {
        assert(!preferred_tile(tile_at(tiles, w, h, base, clamp_row(row_offset(k), half_rows(h)))));
        lemma_first_preferred_at(tiles, w, h, base, k + 1, j);
    }
}

/// Each faction lands in the column `(i * step + step / 2) % w`, where
/// `step` is a sixth of the width (at least one), on the first of the rows
/// 0, 1, -1, 2, -2, 3, -3, 4, -4 (in that order, clamped to the map's
/// `h / 2` rows either side of the equator) whose tile is passable ground
/// other than toxic swamp.
pub proof fn lemma_landing_row_order(tiles: Seq<Option<TerrainType>>, w: int, h: int, i: int)
    requires
        w > 0,
        h >= 0,
        0 <= i < 6,
        tiles.len() == cell_count(w, h),
    ensures
        ({
            let order = seq![0int, 1, -1, 2, -2, 3, -3, 4, -4];
            let half = h / 2;
            let step = if w / 6 > 1 {
                w / 6
            } else {
                1
            };
            let base = (i * step + step / 2) % w;
            let row_of = |o: int|
                if o < -half {
                    -half
                } else if o > half {
                    half
                } else {
                    o
                };
            let good = |o: int|
                {
                    let t = tiles[(row_of(o) + half) * w + base];
                    t is Some && t->0 != TerrainType::Mountains && t->0 != TerrainType::Ocean && t->0
                        != TerrainType::ToxicSwamp
                };
            forall|j: int|
                0 <= j < 9 && #[trigger] good(order[j]) && (forall|k: int| 0 <= k < j ==> !good(order[k]))
                    ==> landing_cell(tiles, w, h, i) == (base, row_of(order[j]))
        }),
{
    let order = seq![0int, 1, -1, 2, -2, 3, -3, 4, -4];
    let half = h / 2;
    let step = if w / 6 > 1 {
        w / 6
    } else {
        1
    };
    let base = (i * step + step / 2) % w;
    let row_of = |o: int|
        if o < -half {
            -half
        } else if o > half {
            half
        } else {
            o
        };
    let good = |o: int|
        {
            let t = tiles[(row_of(o) + half) * w + base];
            t is Some && t->0 != TerrainType::Mountains && t->0 != TerrainType::Ocean && t->0
                != TerrainType::ToxicSwamp
        };
    assert(base == base_col(w, i));
    assert forall|m: int| 0 <= m < 9 implies row_offset(m) == order[m] by {
        if m == 0 {
        } else if m == 1 {
        } else if m == 2 {
        } else if m == 3 {
        } else if m == 4 {
        } else if m == 5 {
        } else if m == 6 {
        } else if m == 7 {
        } else {
        }
    }
    assert forall|m: int| 0 <= m < 9 implies good(order[m]) == preferred_tile(
        #[trigger] tile_at(tiles, w, h, base, clamp_row(row_offset(m), half_rows(h))),
    ) by {
        assert(row_offset(m) == order[m]);
    }
    assert forall|j: int|
        0 <= j < 9 && #[trigger] good(order[j]) && (forall|k: int| 0 <= k < j ==> !good(order[k]))
            implies landing_cell(tiles, w, h, i) == (base, row_of(order[j])) by {
        assert(row_offset(j) == order[j]);
        assert forall|m: int| 0 <= m < j implies !preferred_tile(
            #[trigger] tile_at(tiles, w, h, base, clamp_row(row_offset(m), half_rows(h))),
        ) by {
            assert(!good(order[m]));
            assert(row_offset(m) == order[m]);
        }
        lemma_first_preferred_at(tiles, w, h, base, 0, j);
    }
}

proof fn lemma_acceptable_from(tiles: Seq<Option<TerrainType>>, w: int, h: int, base: int, k: int, n: int)
    requires
        n == (2 * half_rows(h) + 1) * 7,
        0 <= k <= n,
    ensures
        first_acceptable(tiles, w, h, base, k) is Some ==> ({
            let m = first_acceptable(tiles, w, h, base, k)->0;
            &&& k <= m < n
            &&& acceptable_tile(tile_at(tiles, w, h, wide_cell(w, h, base, m).0, wide_cell(w, h, base, m).1))
            &&& forall|q: int|
                k <= q < m ==> !acceptable_tile(
                    #[trigger] tile_at(tiles, w, h, wide_cell(w, h, base, q).0, wide_cell(w, h, base, q).1),
                )
        }),
        first_acceptable(tiles, w, h, base, k) is None ==> forall|q: int|
            k <= q < n ==> !acceptable_tile(
                #[trigger] tile_at(tiles, w, h, wide_cell(w, h, base, q).0, wide_cell(w, h, base, q).1),
            ),
    decreases n - k,
{
    if k < n {
        lemma_acceptable_from(tiles, w, h, base, k + 1, n);
    }
}

/// Whether step `k` of faction `i`'s wide search finds passable ground:
/// the search runs over the rows from the southernmost (`-(h / 2)`) to the
/// northernmost, and in each row over the columns from three west to three
/// east of the faction's column, wrapping round the map's width.
pub open spec fn wide_step_passable(tiles: Seq<Option<TerrainType>>, w: int, h: int, i: int, k: int) -> bool {
    let step = if w / 6 > 1 {
        w / 6
    } else {
        1
    };
    let base = (i * step + step / 2) % w;
    let t = tiles[(k / 7) * w + (base + k % 7 - 3) % w];
    t is Some && t->0 != TerrainType::Mountains && t->0 != TerrainType::Ocean
}

/// When no row of its own column suits a faction, it lands on the first
/// passable tile of a wide search: rows from the southernmost to the
/// northernmost, and in each row the columns from three west to three east
/// of its column, wrapping round the map's width; when there is none, it
/// lands on its column at the equator.
pub proof fn lemma_landing_wide_search(tiles: Seq<Option<TerrainType>>, w: int, h: int, i: int)
    requires
        w > 0,
        h >= 0,
        0 <= i < 6,
        tiles.len() == cell_count(w, h),
        first_preferred(tiles, w, h, base_col(w, i), 0) is None,
    ensures
        ({
            let half = h / 2;
            let step = if w / 6 > 1 {
                w / 6
            } else {
                1
            };
            let base = (i * step + step / 2) % w;
            let n = (2 * half + 1) * 7;
            &&& forall|k: int|
                0 <= k < n && #[trigger] wide_step_passable(tiles, w, h, i, k) && (forall|m: int|
                    0 <= m < k ==> !#[trigger] wide_step_passable(tiles, w, h, i, m)) ==> landing_cell(
                    tiles,
                    w,
                    h,
                    i,
                ) == ((base + k % 7 - 3) % w, -half + k / 7)
            &&& (forall|k: int| 0 <= k < n ==> !#[trigger] wide_step_passable(tiles, w, h, i, k))
                ==> landing_cell(tiles, w, h, i) == (base, 0int)
        }),
{
    let half = h / 2;
    let step = if w / 6 > 1 {
        w / 6
    } else {
        1
    };
    let base = (i * step + step / 2) % w;
    let n = (2 * half + 1) * 7;
    assert(base == base_col(w, i));
    assert forall|k: int| 0 <= k < n implies #[trigger] wide_step_passable(tiles, w, h, i, k) == acceptable_tile(
        tile_at(tiles, w, h, wide_cell(w, h, base, k).0, wide_cell(w, h, base, k).1),
    ) by {
        assert(wide_cell(w, h, base, k).1 + half == k / 7);
    }
    lemma_acceptable_from(tiles, w, h, base, 0, n);
    assert forall|k: int|
        0 <= k < n && #[trigger] wide_step_passable(tiles, w, h, i, k) && (forall|m: int|
            0 <= m < k ==> !#[trigger] wide_step_passable(tiles, w, h, i, m)) implies landing_cell(
            tiles,
            w,
            h,
            i,
        ) == ((base + k % 7 - 3) % w, -half + k / 7) by {
        if first_acceptable(tiles, w, h, base, 0) is None {
            assert(!acceptable_tile(tile_at(tiles, w, h, wide_cell(w, h, base, k).0, wide_cell(w, h, base, k).1)));
        } else {
            let m = first_acceptable(tiles, w, h, base, 0)->0;
            if m < k {
                assert(!wide_step_passable(tiles, w, h, i, m));
            }
            if m > k {
                assert(!acceptable_tile(tile_at(tiles, w, h, wide_cell(w, h, base, k).0, wide_cell(w, h, base, k).1)));
            }
        }
    }
    if first_acceptable(tiles, w, h, base, 0) is Some {
        let m = first_acceptable(tiles, w, h, base, 0)->0;
        assert(wide_step_passable(tiles, w, h, i, m));
    }
}

} // verus!
