use vstd::prelude::*;

verus! {

/// Kind of terrain on a map tile.
#[derive(Debug, Clone, Copy, PartialEq, Eq, Hash, Structural)]
pub enum TerrainType {
    /// Standard terrain, good visibility, low movement cost.
    Plains,
    /// Visibility bonus, good for defence.
    Hills,
    /// Alien forest with cover; hard going for armour.
    Forest,
    /// Impassable for ground units.
    Mountains,
    /// Water; no ground units.
    Ocean,
    /// Toxic swamp with high alien activity.
    ToxicSwamp,
    /// Crystal and mineral fields, good for mining.
    CrystalFields,
}

/// The display name of each terrain kind.
pub open spec fn terrain_name(t: TerrainType) -> Seq<char> {
    match t {
        TerrainType::Plains => "平原 (Plains)"@,
        TerrainType::Hills => "丘陵 (Hills)"@,
        TerrainType::Forest => "異星原生林 (Alien Forest)"@,
        TerrainType::Mountains => "険峻な山岳 (Mountains)"@,
        TerrainType::Ocean => "海洋 (Ocean)"@,
        TerrainType::ToxicSwamp => "瘴気湿地 (Toxic Swamp)"@,
        TerrainType::CrystalFields => "共鳴結晶地帯 (Crystal Fields)"@,
    }
}

/// Ground units can enter every terrain except mountains and ocean.
pub open spec fn passable_ground(t: TerrainType) -> bool {
    !(t is Mountains || t is Ocean)
}

impl TerrainType {
    /// The display name of the terrain.
    pub fn name(&self) -> (n: &'static str)
        ensures
            n@ == terrain_name(*self),
    {
        match self {
            TerrainType::Plains => "平原 (Plains)",
            TerrainType::Hills => "丘陵 (Hills)",
            TerrainType::Forest => "異星原生林 (Alien Forest)",
            TerrainType::Mountains => "険峻な山岳 (Mountains)",
            TerrainType::Ocean => "海洋 (Ocean)",
            TerrainType::ToxicSwamp => "瘴気湿地 (Toxic Swamp)",
            TerrainType::CrystalFields => "共鳴結晶地帯 (Crystal Fields)",
        }
    }

    /// Whether ordinary ground units can enter this terrain.
    pub fn is_passable_ground(&self) -> (b: bool)
        ensures
            b == passable_ground(*self),
    {
        match self {
            TerrainType::Mountains | TerrainType::Ocean => false,
            _ => true,
        }
    }
}

} // verus!
