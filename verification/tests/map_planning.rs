use alien_com::faction::FactionId;
use alien_com::hex::HexCoord;
use alien_com::landing::landing_sites;
use alien_com::map_grid::MapGrid;
use alien_com::map_plan::{classify_map, CellPlan, LowlandTerrain};
use alien_com::terrain::TerrainType;

fn cell(col: i32, row: i32, land: bool, high: bool, neighbors: Vec<(i32, i32)>) -> CellPlan {
    CellPlan { coord: HexCoord::new(col, row), land, high, lowland: LowlandTerrain::Hills, neighbors }
}

fn three_by_three(high_edge: bool) -> Vec<CellPlan> {
    let mut cells = Vec::new();
    for row in -1..=1 {
        for col in 0..3 {
            let land = !(row == 1 && col == 2);
            let neighbors = if col == 1 && row == 0 {
                vec![(0, 0), (2, 0), (1, -1), (1, 1), (0, 1), (2, -1)]
            } else if col == 0 && row == -1 {
                vec![(1, -1), (0, 0), (0, -2)]
            } else {
                vec![(col, row)]
            };
            cells.push(cell(col, row, land, high_edge || (col == 1 && row == 0), neighbors));
        }
    }
    cells
}

#[test]
fn map_layout_and_mountain_rule() {
    let mut grid = MapGrid::new();
    let cells = three_by_three(true);
    assert!(classify_map(&mut grid, 3, 2, &cells));
    assert_eq!((grid.width, grid.height), (3, 2));
    assert_eq!(grid.terrain_data.len(), 9);
    // inland high cell: a mountain
    assert_eq!(grid.terrain_at(HexCoord::new(1, 0)), Some(TerrainType::Mountains));
    // not land: ocean, even when high
    assert_eq!(grid.terrain_at(HexCoord::new(2, 1)), Some(TerrainType::Ocean));
    // a high cell whose neighbour is off the map is not a mountain
    assert_eq!(grid.terrain_at(HexCoord::new(0, -1)), Some(TerrainType::Hills));
    // a high cell whose only neighbour is itself (land) is a mountain
    assert_eq!(grid.terrain_at(HexCoord::new(2, -1)), Some(TerrainType::Mountains));
    // an existing map is kept
    let other = three_by_three(false);
    assert!(!classify_map(&mut grid, 5, 4, &other));
    assert_eq!((grid.width, grid.height), (3, 2));
    assert_eq!(grid.terrain_at(HexCoord::new(2, -1)), Some(TerrainType::Mountains));
}

#[test]
fn mountain_next_to_ocean_is_lowland() {
    let mut grid = MapGrid::new();
    let mut cells = three_by_three(false);
    // the centre now touches the ocean cell (2, 1)
    cells[4].neighbors.push((2, 1));
    classify_map(&mut grid, 3, 2, &cells);
    assert_eq!(grid.terrain_at(HexCoord::new(1, 0)), Some(TerrainType::Hills));
}

#[test]
fn landing_site_search() {
    let (w, h) = (12i32, 4i32);
    let mut tiles: Vec<Option<TerrainType>> = vec![Some(TerrainType::Ocean); 5 * 12];
    let at = |col: i32, row: i32| ((row + 2) * 12 + col) as usize;
    tiles[at(1, 1)] = Some(TerrainType::Plains);
    tiles[at(3, 0)] = Some(TerrainType::ToxicSwamp);
    tiles[at(3, -2)] = Some(TerrainType::Hills);
    tiles[at(5, 0)] = Some(TerrainType::ToxicSwamp);
    tiles[at(2, -1)] = Some(TerrainType::Forest);
    let sites = landing_sites(&tiles, w, h);
    assert_eq!(
        sites,
        vec![
            (FactionId::Empire, (1, 1)),
            (FactionId::GrandDuchy, (3, -2)),
            (FactionId::Federation, (3, -2)),
            (FactionId::Republic, (5, 0)),
            (FactionId::Commonwealth, (9, 0)),
            (FactionId::Union, (2, -1)),
        ]
    );
}

#[test]
fn landing_rows_are_clamped_on_small_maps() {
    // one row only: every offset is clamped to the equator
    let mut tiles = vec![None; 3];
    tiles[0] = Some(TerrainType::Forest);
    let sites = landing_sites(&tiles, 3, 1);
    // column step 1: bases 0, 1, 2, 0, 1, 2
    assert_eq!(sites[0].1, (0, 0));
    assert_eq!(sites[1].1, (0, 0));
    assert_eq!(sites[3].1, (0, 0));
    tiles[0] = None;
    let sites = landing_sites(&tiles, 3, 1);
    assert_eq!(sites[2].1, (2, 0));
}
