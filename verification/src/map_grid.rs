use vstd::prelude::*;
use crate::coord_map::CoordMap;
use crate::hex::HexCoord;
use crate::terrain::TerrainType;

verus! {

/// The generated map: the terrain of every tile, and the map's size in
/// tiles (0 before a map is generated).
pub struct MapGrid {
    pub terrain_data: CoordMap<TerrainType>,
    pub width: i32,
    pub height: i32,
}

impl MapGrid {
    pub open spec fn wf(self) -> bool {
        self.terrain_data.wf()
    }

    /// An empty map of size 0 x 0.
    pub fn new() -> (g: MapGrid)
        ensures
            g.wf(),
            g.terrain_data.view() == Map::<HexCoord, TerrainType>::empty(),
            g.width == 0,
            g.height == 0,
    {
        MapGrid { terrain_data: CoordMap::new(), width: 0, height: 0 }
    }

    /// Whether the map has a tile at `coord`.
    pub fn has_tile(&self, coord: HexCoord) -> (b: bool)
        requires
            self.wf(),
        ensures
            b == self.terrain_data.view().contains_key(coord),
    {
        self.terrain_data.contains_key(coord)
    }

    /// The terrain at `coord`, if the map has a tile there.
    pub fn terrain_at(&self, coord: HexCoord) -> (t: Option<TerrainType>)
        requires
            self.wf(),
        ensures
            t == (if self.terrain_data.view().contains_key(coord) {
                Some(self.terrain_data.view()[coord])
            } else {
                None
            }),
    {
        self.terrain_data.get(coord)
    }

    /// Removes every tile.
    pub fn clear(&mut self)
        ensures
            final(self).wf(),
            final(self).terrain_data.view() == Map::<HexCoord, TerrainType>::empty(),
            final(self).width == old(self).width,
            final(self).height == old(self).height,
    {
        self.terrain_data.clear();
    }
}

impl Default for MapGrid {
    fn default() -> (g: MapGrid)
        ensures
            g.wf(),
            g.terrain_data.view() == Map::<HexCoord, TerrainType>::empty(),
            g.width == 0,
            g.height == 0,
    {
        MapGrid::new()
    }
}

} // verus!
