use vstd::prelude::*;

verus! {

/// Environment type of the planet; it shapes terrain generation.
#[derive(Debug, Clone, Copy, PartialEq, Eq, Hash, Structural)]
pub enum PlanetEnvironment {
    /// Earth-like balance of plains, forest, ocean and mountains.
    Terra,
    /// Dry desert planet: little ocean, wide plains and hills.
    Arid,
    /// Ocean planet with scattered islands.
    Archipelago,
    /// Toxic swamps and dense alien forest.
    ToxicMarsh,
    /// Exposed crystal deposits and steep mountain ranges.
    Crystalline,
}

/// Map size presets.
#[derive(Debug, Clone, Copy, PartialEq, Eq, Hash, Structural)]
pub enum MapSize {
    /// 20 x 12
    Small,
    /// 28 x 16
    Standard,
    /// 36 x 20
    Large,
}

/// Width and height in tiles of each map size.
pub open spec fn map_dimensions(size: MapSize) -> (int, int) {
    match size {
        MapSize::Small => (20, 12),
        MapSize::Standard => (28, 16),
        MapSize::Large => (36, 20),
    }
}

pub open spec fn environment_name(env: PlanetEnvironment) -> Seq<char> {
    match env {
        PlanetEnvironment::Terra => "テラ型標準 (Terra)"@,
        PlanetEnvironment::Arid => "乾燥砂漠 (Arid Dunes)"@,
        PlanetEnvironment::Archipelago => "海洋諸島 (Archipelago)"@,
        PlanetEnvironment::ToxicMarsh => "瘴気沼沢 (Toxic Marsh)"@,
        PlanetEnvironment::Crystalline => "結晶山脈 (Crystalline)"@,
    }
}

pub open spec fn environment_description(env: PlanetEnvironment) -> Seq<char> {
    match env {
        PlanetEnvironment::Terra => "母星に近い気候。海洋と陸地、森林が程よく分布する探査安定惑星。"@,
        PlanetEnvironment::Arid => "水資源が乏しく広大な乾燥大地が続く。陸上部隊の行軍は容易だが水域は極小。"@,
        PlanetEnvironment::Archipelago => "地表の大半が海に没した水惑星。限られた群島をめぐる激しい領有争いが生じる。"@,
        PlanetEnvironment::ToxicMarsh => "原生異星植物と毒性湿地帯が密集。未知の生態系が活発で過酷な進軍を強いられる。"@,
        PlanetEnvironment::Crystalline => "共鳴結晶鉱床が露出した高標高帯。特殊資源に恵まれるが険峻な山脈が遮る。"@,
    }
}

pub open spec fn map_size_name(size: MapSize) -> Seq<char> {
    match size {
        MapSize::Small => "小型 (Small: 20x12)"@,
        MapSize::Standard => "標準 (Standard: 28x16)"@,
        MapSize::Large => "大型 (Large: 36x20)"@,
    }
}

impl PlanetEnvironment {
    /// All environments, in menu order.
    pub const ALL: [PlanetEnvironment; 5] = [
        PlanetEnvironment::Terra,
        PlanetEnvironment::Arid,
        PlanetEnvironment::Archipelago,
        PlanetEnvironment::ToxicMarsh,
        PlanetEnvironment::Crystalline,
    ];

    /// The display name of the environment.
    pub fn name_ja(&self) -> (n: &'static str)
        ensures
            n@ == environment_name(*self),
    {
        match self {
            PlanetEnvironment::Terra => "テラ型標準 (Terra)",
            PlanetEnvironment::Arid => "乾燥砂漠 (Arid Dunes)",
            PlanetEnvironment::Archipelago => "海洋諸島 (Archipelago)",
            PlanetEnvironment::ToxicMarsh => "瘴気沼沢 (Toxic Marsh)",
            PlanetEnvironment::Crystalline => "結晶山脈 (Crystalline)",
        }
    }

    /// A one-sentence description of the environment.
    pub fn description(&self) -> (d: &'static str)
        ensures
            d@ == environment_description(*self),
    {
        match self {
            PlanetEnvironment::Terra => "母星に近い気候。海洋と陸地、森林が程よく分布する探査安定惑星。",
            PlanetEnvironment::Arid => "水資源が乏しく広大な乾燥大地が続く。陸上部隊の行軍は容易だが水域は極小。",
            PlanetEnvironment::Archipelago => "地表の大半が海に没した水惑星。限られた群島をめぐる激しい領有争いが生じる。",
            PlanetEnvironment::ToxicMarsh => "原生異星植物と毒性湿地帯が密集。未知の生態系が活発で過酷な進軍を強いられる。",
            PlanetEnvironment::Crystalline => "共鳴結晶鉱床が露出した高標高帯。特殊資源に恵まれるが険峻な山脈が遮る。",
        }
    }
}

impl MapSize {
    /// All map sizes, in menu order.
    pub const ALL: [MapSize; 3] = [MapSize::Small, MapSize::Standard, MapSize::Large];

    /// Width and height in tiles.
    pub fn dimensions(&self) -> (d: (i32, i32))
        ensures
            (d.0 as int, d.1 as int) == map_dimensions(*self),
    {
        match self {
            MapSize::Small => (20, 12),
            MapSize::Standard => (28, 16),
            MapSize::Large => (36, 20),
        }
    }

    pub fn width(&self) -> (w: i32)
        ensures
            w == map_dimensions(*self).0,
    {
        self.dimensions().0
    }

    pub fn height(&self) -> (h: i32)
        ensures
            h == map_dimensions(*self).1,
    {
        self.dimensions().1
    }

    /// The display name of the size.
    pub fn name_ja(&self) -> (n: &'static str)
        ensures
            n@ == map_size_name(*self),
    {
        match self {
            MapSize::Small => "小型 (Small: 20x12)",
            MapSize::Standard => "標準 (Standard: 28x16)",
            MapSize::Large => "大型 (Large: 36x20)",
        }
    }
}

/// Map generation parameters chosen before a game starts.
#[derive(Debug, Clone, Copy, PartialEq, Eq, Structural)]
pub struct MapConfig {
    pub environment: PlanetEnvironment,
    pub size: MapSize,
    pub seed: u32,
}

impl MapConfig {
    /// Terra, standard size, seed 1337.
    pub fn default_config() -> (c: MapConfig)
        ensures
            c.environment == PlanetEnvironment::Terra,
            c.size == MapSize::Standard,
            c.seed == 1337,
    {
        MapConfig { environment: PlanetEnvironment::Terra, size: MapSize::Standard, seed: 1337 }
    }

    pub fn width(&self) -> (w: i32)
        ensures
            w == map_dimensions(self.size).0,
    {
        self.size.width()
    }

    pub fn height(&self) -> (h: i32)
        ensures
            h == map_dimensions(self.size).1,
    {
        self.size.height()
    }
}

impl Default for MapConfig {
    fn default() -> (c: MapConfig)
        ensures
            c.environment == PlanetEnvironment::Terra,
            c.size == MapSize::Standard,
            c.seed == 1337,
    {
        MapConfig::default_config()
    }
}

} // verus!
