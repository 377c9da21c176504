use vstd::prelude::*;
use crate::coord_map::CoordMap;
use crate::hex::HexCoord;
use crate::map_grid::MapGrid;
use crate::terrain::TerrainType;

verus! {

/// The terrain a land tile takes when it does not become a mountain.
#[derive(Debug, Clone, Copy, PartialEq, Eq, Structural)]
pub enum LowlandTerrain {
    Plains,
    Hills,
    Forest,
    ToxicSwamp,
    CrystalFields,
}

/// The terrain type of a lowland kind.
pub open spec fn lowland_type(l: LowlandTerrain) -> TerrainType {
    match l {
        LowlandTerrain::Plains => TerrainType::Plains,
        LowlandTerrain::Hills => TerrainType::Hills,
        LowlandTerrain::Forest => TerrainType::Forest,
        LowlandTerrain::ToxicSwamp => TerrainType::ToxicSwamp,
        LowlandTerrain::CrystalFields => TerrainType::CrystalFields,
    }
}

fn lowland_type_exec(l: LowlandTerrain) -> (t: TerrainType)
    ensures
        t == lowland_type(l),
{
    match l {
        LowlandTerrain::Plains => TerrainType::Plains,
        LowlandTerrain::Hills => TerrainType::Hills,
        LowlandTerrain::Forest => TerrainType::Forest,
        LowlandTerrain::ToxicSwamp => TerrainType::ToxicSwamp,
        LowlandTerrain::CrystalFields => TerrainType::CrystalFields,
    }
}

/// What the elevation and climate of one map cell decided: its hex, whether
/// it is land, whether it is high enough for a mountain, the terrain it takes
/// otherwise, and the (column, row) cells next to it.
pub struct CellPlan {
    pub coord: HexCoord,
    pub land: bool,
    pub high: bool,
    pub lowland: LowlandTerrain,
    pub neighbors: Vec<(i32, i32)>,
}

/// Half the number of rows besides the equator: rows run from `-(h / 2)`
/// to `h / 2`.
pub open spec fn half_rows(h: int) -> int {
    h / 2
}

/// Number of cells of a `w` by `h` map: `2 * (h / 2) + 1` rows of `w`.
pub open spec fn cell_count(w: int, h: int) -> int {
    (2 * half_rows(h) + 1) * w
}

/// Position of cell (column, row) in the row-major list of cells.
pub open spec fn cell_index(w: int, h: int, col: int, row: int) -> int {
    (row + half_rows(h)) * w + col
}

/// Whether (column, row) is a cell of the map.
pub open spec fn on_map(w: int, h: int, col: int, row: int) -> bool {
    0 <= col < w && -half_rows(h) <= row <= half_rows(h)
}

/// Whether the cell at (column, row) is land; a cell off the map counts as
/// ocean.
pub open spec fn land_at(cells: Seq<CellPlan>, w: int, h: int, col: int, row: int) -> bool {
    on_map(w, h, col, row) && cells[cell_index(w, h, col, row)].land
}

/// Whether a cell touches ocean or the edge of the map.
pub open spec fn coastal(cells: Seq<CellPlan>, w: int, h: int, i: int) -> bool {
    exists|j: int|
        0 <= j < cells[i].neighbors@.len() && !land_at(
            cells,
            w,
            h,
            (#[trigger] cells[i].neighbors@[j]).0 as int,
            cells[i].neighbors@[j].1 as int,
        )
}

/// The terrain of a cell: ocean where it is not land; a mountain where it is
/// high land that touches neither ocean nor the map's edge; otherwise its
/// lowland terrain.
pub open spec fn cell_terrain(cells: Seq<CellPlan>, w: int, h: int, i: int) -> TerrainType {
    if !cells[i].land {
        TerrainType::Ocean
    } else if cells[i].high && !coastal(cells, w, h, i) {
        TerrainType::Mountains
    } else {
        lowland_type(cells[i].lowland)
    }
}

/// The terrain of each hex after the first `n` cells are placed in order.
pub open spec fn planned_terrain(cells: Seq<CellPlan>, w: int, h: int, n: int) -> Map<HexCoord, TerrainType>
    decreases n,
{
    if n <= 0 {
        Map::empty()
    } else {
        planned_terrain(cells, w, h, n - 1).insert(cells[n - 1].coord, cell_terrain(cells, w, h, n - 1))
    }
}

/// Whether the cell at `i` touches ocean or the map's edge, as `coastal`
/// states.
fn is_coastal(cells: &Vec<CellPlan>, w: i32, h: i32, i: usize) -> (b: bool)
    requires
        w > 0,
        h >= 0,
        cells@.len() == cell_count(w as int, h as int),
        i < cells@.len(),
    ensures
        b == coastal(cells@, w as int, h as int, i as int),
{
    let half: i64 = (h / 2) as i64;
    let ns = &cells[i].neighbors;
    let n: usize = cells.len();
    let mut j: usize = 0;
    while j < ns.len()
        invariant
            w > 0,
            h >= 0,
            half == half_rows(h as int),
            n == cells@.len(),
            cells@.len() == cell_count(w as int, h as int),
            i < cells@.len(),
            *ns == cells@[i as int].neighbors,
            j <= ns@.len(),
            forall|k: int|
                0 <= k < j ==> land_at(
                    cells@,
                    w as int,
                    h as int,
                    (#[trigger] ns@[k]).0 as int,
                    ns@[k].1 as int,
                ),
        decreases ns@.len() - j,
    {
        let (c, r) = ns[j];
        let inside = 0 <= c && c < w && -half <= r as i64 && r as i64 <= half;
        if !inside {
            assert(!land_at(cells@, w as int, h as int, ns@[j as int].0 as int, ns@[j as int].1 as int));
            return true;
        }
        let ri: usize = (r as i64 + half) as usize;
        proof {
            let rows = 2 * half_rows(h as int) + 1;
            assert(0 <= ri < rows);
            assert(0 <= ri * w <= ri * w + c < rows * w) by (nonlinear_arith)
                requires
                    0 <= ri < rows,
                    0 <= c < w,
            ;
            assert(rows * w == n);
        }
        let idx: usize = ri * (w as usize) + c as usize;
        if !cells[idx].land {
            return true;
        }
        j = j + 1;
    }
    false
}

/// Lays out a new map from the cells' plan, unless the map already holds
/// tiles. Cells come row by row from the southernmost row, `w` to a row.
/// Every cell's hex gets the terrain `cell_terrain` gives it, and the map's
/// size becomes `w` by `h`. Returns whether a map was laid out; an existing
/// map is left as it is.
pub fn classify_map(grid: &mut MapGrid, w: i32, h: i32, cells: &Vec<CellPlan>) -> (made: bool)
    requires
        old(grid).wf(),
        w > 0,
        h >= 0,
        cells@.len() == cell_count(w as int, h as int),
    ensures
        final(grid).wf(),
        made == (old(grid).terrain_data.view().dom() == Set::<HexCoord>::empty()),
        made ==> final(grid).terrain_data.view() == planned_terrain(
            cells@,
            w as int,
            h as int,
            cells@.len() as int,
        ) && final(grid).width == w && final(grid).height == h,
        !made ==> final(grid).terrain_data.view() == old(grid).terrain_data.view()
            && final(grid).width == old(grid).width && final(grid).height == old(grid).height,
{
    if !grid.terrain_data.is_empty() {
        return false;
    }
    let mut data: CoordMap<TerrainType> = CoordMap::new();
    let mut i: usize = 0;
    while i < cells.len()
        invariant
            w > 0,
            h >= 0,
            cells@.len() == cell_count(w as int, h as int),
            i <= cells@.len(),
            data.wf(),
            data.view() == planned_terrain(cells@, w as int, h as int, i as int),
        decreases cells@.len() - i,
    {
        let cell = &cells[i];
        let t = if !cell.land {
            TerrainType::Ocean
        } else if cell.high && !is_coastal(cells, w, h, i) {
            TerrainType::Mountains
        } else {
            lowland_type_exec(cell.lowland)
        };
        data.insert(cell.coord, t);
        i = i + 1;
    }
    grid.terrain_data = data;
    grid.width = w;
    grid.height = h;
    true
}

/// A generated map has no mountain by the sea or the map's edge, and no
/// mountain in the sea: every mountain comes from a high land cell none of
/// whose neighbours is ocean or off the map, and every ocean tile from a
/// cell that is not land.
pub proof fn lemma_mountains_inland(cells: Seq<CellPlan>, w: int, h: int, n: int, k: HexCoord)
    requires
        0 <= n <= cells.len(),
        planned_terrain(cells, w, h, n).contains_key(k),
    ensures
        exists|i: int| 0 <= i < n && #[trigger] cells[i].coord == k && planned_terrain(cells, w, h, n)[k]
            == cell_terrain(cells, w, h, i),
        planned_terrain(cells, w, h, n)[k] == TerrainType::Mountains ==> exists|i: int|
            0 <= i < n && #[trigger] cells[i].coord == k && cells[i].land && cells[i].high && !coastal(
                cells,
                w,
                h,
                i,
            ),
        planned_terrain(cells, w, h, n)[k] == TerrainType::Ocean ==> exists|i: int|
            0 <= i < n && #[trigger] cells[i].coord == k && !cells[i].land,
    decreases n,
{
    if cells[n - 1].coord == k {
        let i = n - 1;
        assert(cells[i].coord == k);
    } else {
        lemma_mountains_inland(cells, w, h, n - 1, k);
    }
}

} // verus!
