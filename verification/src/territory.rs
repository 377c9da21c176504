use vstd::prelude::*;
use crate::coord_map::CoordMap;
use crate::faction::{FactionId, FactionManager};
use crate::hex::HexCoord;
use crate::map_grid::MapGrid;
use crate::terrain::TerrainType;

verus! {

/// Ownership of one tile.
#[derive(Debug, Clone, Copy, PartialEq, Eq, Structural)]
pub struct TileTerritory {
    pub owner: Option<FactionId>,
}

/// A faction's settlement or outpost on the map.
#[derive(Debug, Clone)]
pub struct FactionOutpost {
    pub faction: FactionId,
    pub name: String,
    pub coord: HexCoord,
    pub level: u32,
}

/// The name of each faction's first outpost.
pub open spec fn first_outpost_name(f: FactionId) -> Seq<char> {
    match f {
        FactionId::Empire => "ニュー・ソフィア第一司令基地"@,
        FactionId::GrandDuchy => "ハイムダール開拓ドーム"@,
        FactionId::Federation => "フォート・リバティ主拠点"@,
        FactionId::Republic => "紅星・第一人民工廠"@,
        FactionId::Commonwealth => "オセアニア・バイオハブ"@,
        FactionId::Union => "アヴァロン統合司令部"@,
    }
}

/// The name of a faction's first outpost.
pub fn first_outpost_name_of(f: FactionId) -> (s: &'static str)
    ensures
        s@ == first_outpost_name(f),
{
    match f {
        FactionId::Empire => "ニュー・ソフィア第一司令基地",
        FactionId::GrandDuchy => "ハイムダール開拓ドーム",
        FactionId::Federation => "フォート・リバティ主拠点",
        FactionId::Republic => "紅星・第一人民工廠",
        FactionId::Commonwealth => "オセアニア・バイオハブ",
        FactionId::Union => "アヴァロン統合司令部",
    }
}

/// Number of hexes among `ns[0..n]` that are tiles of the map.
pub open spec fn count_on_map(tiles: Map<HexCoord, TerrainType>, ns: Seq<HexCoord>, n: int) -> int
    decreases n,
{
    if n <= 0 {
        0
    } else {
        count_on_map(tiles, ns, n - 1) + if tiles.contains_key(ns[n - 1]) {
            1int
        } else {
            0
        }
    }
}

/// The tiles an outpost at `center` claims: its own, and each neighbour
/// that is a tile of the map.
pub open spec fn claim_area(tiles: Map<HexCoord, TerrainType>, center: HexCoord, k: HexCoord) -> bool {
    k == center || (center.neighbor_seq().contains(k) && tiles.contains_key(k))
}

/// Ownership after an outpost of `f` at `center` claims its area.
pub open spec fn claimed_owners(
    owners: Map<HexCoord, FactionId>,
    tiles: Map<HexCoord, TerrainType>,
    center: HexCoord,
    f: FactionId,
) -> Map<HexCoord, FactionId> {
    Map::new(
        |k: HexCoord| owners.contains_key(k) || claim_area(tiles, center, k),
        |k: HexCoord| if claim_area(tiles, center, k) { f } else { owners[k] },
    )
}

/// Number of claims an outpost at `center` makes: its own tile and one per
/// neighbour on the map.
pub open spec fn claim_count(tiles: Map<HexCoord, TerrainType>, center: HexCoord) -> int {
    1 + count_on_map(tiles, center.neighbor_seq(), 6)
}

/// Ownership of every map tile.
pub struct TerritoryMap {
    pub tile_owners: CoordMap<FactionId>,
}

impl TerritoryMap {
    pub open spec fn wf(self) -> bool {
        self.tile_owners.wf()
    }

    /// The owner of each owned tile.
    pub open spec fn view(self) -> Map<HexCoord, FactionId> {
        self.tile_owners.view()
    }

    /// No tile owned.
    pub fn new() -> (t: TerritoryMap)
        ensures
            t.wf(),
            t.view() == Map::<HexCoord, FactionId>::empty(),
    {
        TerritoryMap { tile_owners: CoordMap::new() }
    }

    /// The owner of a tile, if it has one.
    pub fn get_owner(&self, coord: &HexCoord) -> (o: Option<FactionId>)
        requires
            self.wf(),
        ensures
            o == (if self.view().contains_key(*coord) {
                Some(self.view()[*coord])
            } else {
                None
            }),
    {
        self.tile_owners.get(*coord)
    }

    /// Whether `faction` owns the tile.
    pub fn is_owned_by(&self, coord: &HexCoord, faction: FactionId) -> (b: bool)
        requires
            self.wf(),
        ensures
            b == (self.view().contains_key(*coord) && self.view()[*coord] == faction),
    {
        match self.get_owner(coord) {
            Some(f) => f == faction,
            None => false,
        }
    }

    /// An outpost of `faction` at `center` claims its own tile and every
    /// neighbouring map tile, whoever held them; returns the number of claims.
    pub fn claim_outpost_territory(
        &mut self,
        grid: &MapGrid,
        center: HexCoord,
        faction: FactionId,
    ) -> (claimed: usize)
        requires
            old(self).wf(),
            grid.wf(),
            center.neighbors_computable(),
        ensures
            final(self).wf(),
            final(self).view() == claimed_owners(
                old(self).view(),
                grid.terrain_data.view(),
                center,
                faction,
            ),
            claimed == claim_count(grid.terrain_data.view(), center),
    {
        let ghost tiles = grid.terrain_data.view();
        let ns = center.neighbors();
        let ghost nseq = center.neighbor_seq();
        self.tile_owners.insert(center, faction);
        let mut claimed: usize = 1;
        let mut i: usize = 0;
        while i < 6
            invariant
                self.wf(),
                grid.wf(),
                tiles == grid.terrain_data.view(),
                ns@ == nseq,
                nseq == center.neighbor_seq(),
                i <= 6,
                claimed == 1 + count_on_map(tiles, nseq, i as int),
                claimed <= 1 + i,
                forall|k: HexCoord| #[trigger]
                    self.view().contains_key(k) <==> (old(self).view().contains_key(k) || k == center
                        || (exists|j: int| 0 <= j < i && nseq[j] == k && tiles.contains_key(k))),
                forall|k: HexCoord| #[trigger]
                    self.view().contains_key(k) ==> self.view()[k] == (if k == center || (exists|j: int|
                        0 <= j < i && nseq[j] == k && tiles.contains_key(k)) {
                        faction
                    } else {
                        old(self).view()[k]
                    }),
            decreases 6 - i,
        {
            let n = ns[i];
            let ghost before = self.view();
            if grid.has_tile(n) {
                self.tile_owners.insert(n, faction);
                claimed = claimed + 1;
            }
            proof {
                assert forall|k: HexCoord|
                    (exists|j: int| 0 <= j < i + 1 && nseq[j] == k && tiles.contains_key(k)) <==> ((
                    exists|j: int| 0 <= j < i && nseq[j] == k && tiles.contains_key(k)) || (k == n
                        && tiles.contains_key(k))) by {
                    if exists|j: int| 0 <= j < i + 1 && nseq[j] == k && tiles.contains_key(k) {
                        let j = choose|j: int| 0 <= j < i + 1 && nseq[j] == k && tiles.contains_key(k);
                        if j < i {
                            assert(0 <= j < i && nseq[j] == k && tiles.contains_key(k));
                        }
                    }
                    if k == n && tiles.contains_key(k) {
                        assert(0 <= i < i + 1 && nseq[i as int] == k && tiles.contains_key(k));
                    }
                }
            }
            i = i + 1;
        }
        proof {
            assert forall|k: HexCoord| (exists|j: int| 0 <= j < 6 && nseq[j] == k && tiles.contains_key(k))
                <==> (nseq.contains(k) && tiles.contains_key(k)) by {
                if nseq.contains(k) && tiles.contains_key(k) {
                    let j = choose|j: int| 0 <= j < nseq.len() && nseq[j] == k;
                    assert(0 <= j < 6 && nseq[j] == k && tiles.contains_key(k));
                }
            }
            assert(self.view() =~= claimed_owners(old(self).view(), tiles, center, faction));
        }
        claimed
    }

    /// Removes all ownership.
    pub fn clear(&mut self)
        ensures
            final(self).wf(),
            final(self).view() == Map::<HexCoord, FactionId>::empty(),
    {
        self.tile_owners.clear();
    }
}

/// Ownership after each site, in order, claims its area for its faction.
pub open spec fn claim_all(
    owners: Map<HexCoord, FactionId>,
    tiles: Map<HexCoord, TerrainType>,
    sites: Seq<(FactionId, HexCoord)>,
) -> Map<HexCoord, FactionId>
    decreases sites.len(),
{
    if sites.len() == 0 {
        owners
    } else {
        claimed_owners(
            claim_all(owners, tiles, sites.drop_last()),
            tiles,
            sites.last().1,
            sites.last().0,
        )
    }
}

impl TerritoryMap {
    /// Founds the first outposts of a new game, one per landing site: each is
    /// a level 1 outpost with its faction's first outpost name, claims its
    /// area, and sets its faction's tile count to the number of claims.
    /// Nothing happens while the map is empty or once territory exists.
    pub fn setup_initial_territories(
        &mut self,
        manager: &mut FactionManager,
        grid: &MapGrid,
        sites: &Vec<(FactionId, HexCoord)>,
    ) -> (outposts: Vec<FactionOutpost>)
        requires
            old(self).wf(),
            old(manager).wf(),
            grid.wf(),
            forall|i: int| 0 <= i < sites@.len() ==> (#[trigger] sites@[i]).1.neighbors_computable(),
            forall|i: int, j: int|
                0 <= i < j < sites@.len() ==> (#[trigger] sites@[i]).0 != (#[trigger] sites@[j]).0,
        ensures
            final(self).wf(),
            final(manager).wf(),
            forall|a: FactionId, b: FactionId| #[trigger]
                final(manager).score(a, b) == old(manager).score(a, b),
            if grid.terrain_data.view().dom() == Set::<HexCoord>::empty() || old(self).view().dom()
                != Set::<HexCoord>::empty() {
                &&& final(self).view() == old(self).view()
                &&& outposts@.len() == 0
                &&& forall|f: FactionId| #[trigger] final(manager).territory(f) == old(manager).territory(f)
            } else {
                &&& final(self).view() == claim_all(old(self).view(), grid.terrain_data.view(), sites@)
                &&& outposts@.len() == sites@.len()
                &&& forall|i: int|
                    0 <= i < sites@.len() ==> {
                        &&& (#[trigger] outposts@[i]).faction == sites@[i].0
                        &&& outposts@[i].coord == sites@[i].1
                        &&& outposts@[i].level == 1
                        &&& outposts@[i].name@ == first_outpost_name(sites@[i].0)
                        &&& final(manager).territory(sites@[i].0) == claim_count(
                            grid.terrain_data.view(),
                            sites@[i].1,
                        )
                    }
                &&& forall|f: FactionId|
                    (forall|i: int| 0 <= i < sites@.len() ==> (#[trigger] sites@[i]).0 != f)
                        ==> #[trigger] final(manager).territory(f) == old(manager).territory(f)
            },
    {
        let mut outposts: Vec<FactionOutpost> = Vec::new();
        if grid.terrain_data.is_empty() || !self.tile_owners.is_empty() {
            return outposts;
        }
        let ghost tiles = grid.terrain_data.view();
        let ghost start = self.view();
        let ghost m0 = *manager;
        let mut i: usize = 0;
        while i < sites.len()
            invariant
                self.wf(),
                manager.wf(),
                grid.wf(),
                tiles == grid.terrain_data.view(),
                i <= sites@.len(),
                forall|j: int| 0 <= j < sites@.len() ==> (#[trigger] sites@[j]).1.neighbors_computable(),
                forall|j: int, l: int|
                    0 <= j < l < sites@.len() ==> (#[trigger] sites@[j]).0 != (#[trigger] sites@[l]).0,
                self.view() == claim_all(start, tiles, sites@.take(i as int)),
                outposts@.len() == i,
                forall|a: FactionId, b: FactionId| #[trigger] manager.score(a, b) == m0.score(a, b),
                forall|j: int|
                    0 <= j < i ==> {
                        &&& (#[trigger] outposts@[j]).faction == sites@[j].0
                        &&& outposts@[j].coord == sites@[j].1
                        &&& outposts@[j].level == 1
                        &&& outposts@[j].name@ == first_outpost_name(sites@[j].0)
                        &&& manager.territory(sites@[j].0) == claim_count(tiles, sites@[j].1)
                    },
                forall|f: FactionId|
                    (forall|j: int| 0 <= j < i ==> (#[trigger] sites@[j]).0 != f) ==> #[trigger] manager.territory(f)
                        == m0.territory(f),
            decreases sites@.len() - i,
        {
            let (faction, center) = sites[i];
            let name = String::from_str(first_outpost_name_of(faction));
            outposts.push(FactionOutpost { faction, name, coord: center, level: 1 });
            let claimed = self.claim_outpost_territory(grid, center, faction);
            manager.set_territory_count(faction, claimed);
            proof {
                assert(sites@.take(i + 1).drop_last() =~= sites@.take(i as int));
                assert(sites@.take(i + 1).last() == sites@[i as int]);
                assert forall|f: FactionId|
                    (forall|j: int| 0 <= j < i + 1 ==> (#[trigger] sites@[j]).0 != f) implies #[trigger] manager.territory(f)
                        == m0.territory(f) by {
                    assert(sites@[i as int].0 != f);
                }
            }
            i = i + 1;
        }
        proof {
            assert(sites@.take(sites@.len() as int) =~= sites@);
        }
        outposts
    }
}

impl Default for TerritoryMap {
    fn default() -> (t: TerritoryMap)
        ensures
            t.wf(),
            t.view() == Map::<HexCoord, FactionId>::empty(),
    {
        TerritoryMap::new()
    }
}

/// Reading a tile's owner gives back the faction last recorded for it, and
/// recording one tile changes no other tile's owner.
pub proof fn lemma_owner_read_after_write(
    m: TerritoryMap,
    coord: HexCoord,
    faction: FactionId,
    other: HexCoord,
)
    requires
        m.wf(),
        other != coord,
    ensures
        m.view().insert(coord, faction)[coord] == faction,
        m.view().insert(coord, faction).contains_key(other) == m.view().contains_key(other),
        m.view().contains_key(other) ==> m.view().insert(coord, faction)[other] == m.view()[other],
{
}

/// An outpost always claims its own tile and at most its six neighbours,
/// and everything it claims belongs to its faction afterwards.
pub proof fn lemma_claim_bounds(
    owners: Map<HexCoord, FactionId>,
    tiles: Map<HexCoord, TerrainType>,
    center: HexCoord,
    f: FactionId,
    k: HexCoord,
)
    ensures
        1 <= claim_count(tiles, center) <= 7,
        claimed_owners(owners, tiles, center, f)[center] == f,
        claim_area(tiles, center, k) ==> claimed_owners(owners, tiles, center, f)[k] == f,
        !claim_area(tiles, center, k) ==> claimed_owners(owners, tiles, center, f).contains_key(k)
            == owners.contains_key(k),
{
    let ns = center.neighbor_seq();
    assert(count_on_map(tiles, ns, 0) == 0);
    assert(0 <= count_on_map(tiles, ns, 1) <= 1);
    assert(0 <= count_on_map(tiles, ns, 2) <= 2);
    assert(0 <= count_on_map(tiles, ns, 3) <= 3);
    assert(0 <= count_on_map(tiles, ns, 4) <= 4);
    assert(0 <= count_on_map(tiles, ns, 5) <= 5);
    assert(0 <= count_on_map(tiles, ns, 6) <= 6);
}

} // verus!
