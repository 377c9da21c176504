use vstd::prelude::*;

verus! {

/// The six colonising factions.
#[derive(Debug, Clone, Copy, PartialEq, Eq, Hash, Structural)]
pub enum FactionId {
    /// A: Empire (red)
    Empire,
    /// B: Grand Duchy (light blue)
    GrandDuchy,
    /// C: Federation (brown)
    Federation,
    /// D: Republic (yellow)
    Republic,
    /// E: Commonwealth (green)
    Commonwealth,
    /// F: Union (blue)
    Union,
}

/// Diplomatic attitude between two factions.
#[derive(Debug, Clone, Copy, PartialEq, Eq, Hash, Structural)]
pub enum DiplomaticRelation {
    /// Good / friendly
    Friendly,
    /// Normal / neutral
    Normal,
    /// Cautious / tense
    Cautious,
    /// Hostile / at war
    Hostile,
}

/// Position of a faction in `FactionId::ALL`.
pub open spec fn faction_index(f: FactionId) -> int {
    match f {
        FactionId::Empire => 0,
        FactionId::GrandDuchy => 1,
        FactionId::Federation => 2,
        FactionId::Republic => 3,
        FactionId::Commonwealth => 4,
        FactionId::Union => 5,
    }
}

/// The faction at a position of `FactionId::ALL`.
pub open spec fn faction_at(i: int) -> FactionId {
    if i == 0 {
        FactionId::Empire
    } else if i == 1 {
        FactionId::GrandDuchy
    } else if i == 2 {
        FactionId::Federation
    } else if i == 3 {
        FactionId::Republic
    } else if i == 4 {
        FactionId::Commonwealth
    } else {
        FactionId::Union
    }
}

pub open spec fn faction_code(f: FactionId) -> Seq<char> {
    match f {
        FactionId::Empire => "A"@,
        FactionId::GrandDuchy => "B"@,
        FactionId::Federation => "C"@,
        FactionId::Republic => "D"@,
        FactionId::Commonwealth => "E"@,
        FactionId::Union => "F"@,
    }
}

pub open spec fn faction_name_ja(f: FactionId) -> Seq<char> {
    match f {
        FactionId::Empire => "帝国"@,
        FactionId::GrandDuchy => "大公国"@,
        FactionId::Federation => "連邦"@,
        FactionId::Republic => "共和国"@,
        FactionId::Commonwealth => "共同体"@,
        FactionId::Union => "連合"@,
    }
}

pub open spec fn faction_name_en(f: FactionId) -> Seq<char> {
    match f {
        FactionId::Empire => "Empire"@,
        FactionId::GrandDuchy => "Grand Duchy"@,
        FactionId::Federation => "Federation"@,
        FactionId::Republic => "Republic"@,
        FactionId::Commonwealth => "Commonwealth"@,
        FactionId::Union => "Union"@,
    }
}

pub open spec fn faction_formal_title(f: FactionId) -> Seq<char> {
    match f {
        FactionId::Empire => "アシリア帝国入植遠征軍"@,
        FactionId::GrandDuchy => "北方大公国開拓使団"@,
        FactionId::Federation => "アシリア南部自由連邦"@,
        FactionId::Republic => "アシリア人民統一共和国"@,
        FactionId::Commonwealth => "環洋共同体企業連合"@,
        FactionId::Union => "バシレス統合覇権連合"@,
    }
}

pub open spec fn faction_description(f: FactionId) -> Seq<char> {
    match f {
        FactionId::Empire => "アシリア大陸東部を領有する超大国。皇帝不在の中、皇太子が主導。貴族制と資本家が共存し、強大な軍事力と拡張志向を持つ。"@,
        FactionId::GrandDuchy => "アシリア大陸北東部から中央北部に広がる立憲君主制の北国。建前上は帝国の従属国だが実質的な対抗馬。高い科学技術と外交力を誇る。"@,
        FactionId::Federation => "アシリア大陸南部を領有する多民族連邦国家。豊かな資源と高い生産基盤を持ち、実利的な開拓・通商を重んじる。"@,
        FactionId::Republic => "アシリア大陸西部を領有する巨大集権国家。国家主導の計画経済と大規模な動員力を生かした急速なインフラ構築が得意。"@,
        FactionId::Commonwealth => "大陸北西部・南西部の島嶼部を拠点とする企業体と労働組合による連合体。通商ネットワークと生態系バイオテクノロジーに強み。"@,
        FactionId::Union => "バシレス大陸を統一する世界最高峰の覇権国家。高度な制度的統合と最先端のサイバネティクス・航空技術を誇る。"@,
    }
}

pub open spec fn relation_symbol(r: DiplomaticRelation) -> Seq<char> {
    match r {
        DiplomaticRelation::Friendly => "◎"@,
        DiplomaticRelation::Normal => "◯"@,
        DiplomaticRelation::Cautious => "△"@,
        DiplomaticRelation::Hostile => "✕"@,
    }
}

pub open spec fn relation_text_ja(r: DiplomaticRelation) -> Seq<char> {
    match r {
        DiplomaticRelation::Friendly => "友好 (良好)"@,
        DiplomaticRelation::Normal => "中立 (平常)"@,
        DiplomaticRelation::Cautious => "警戒 (緊張)"@,
        DiplomaticRelation::Hostile => "敵対 (交戦)"@,
    }
}

impl FactionId {
    /// All factions, in the order A to F.
    pub const ALL: [FactionId; 6] = [
        FactionId::Empire,
        FactionId::GrandDuchy,
        FactionId::Federation,
        FactionId::Republic,
        FactionId::Commonwealth,
        FactionId::Union,
    ];

    /// Position of the faction in `ALL`.
    pub fn index(&self) -> (i: usize)
        ensures
            i == faction_index(*self),
            i < 6,
    {
        match self {
            FactionId::Empire => 0,
            FactionId::GrandDuchy => 1,
            FactionId::Federation => 2,
            FactionId::Republic => 3,
            FactionId::Commonwealth => 4,
            FactionId::Union => 5,
        }
    }

    /// The one-letter code A to F.
    pub fn code(&self) -> (s: &'static str)
        ensures
            s@ == faction_code(*self),
    {
        match self {
            FactionId::Empire => "A",
            FactionId::GrandDuchy => "B",
            FactionId::Federation => "C",
            FactionId::Republic => "D",
            FactionId::Commonwealth => "E",
            FactionId::Union => "F",
        }
    }

    pub fn name_ja(&self) -> (s: &'static str)
        ensures
            s@ == faction_name_ja(*self),
    {
        match self {
            FactionId::Empire => "帝国",
            FactionId::GrandDuchy => "大公国",
            FactionId::Federation => "連邦",
            FactionId::Republic => "共和国",
            FactionId::Commonwealth => "共同体",
            FactionId::Union => "連合",
        }
    }

    pub fn name_en(&self) -> (s: &'static str)
        ensures
            s@ == faction_name_en(*self),
    {
        match self {
            FactionId::Empire => "Empire",
            FactionId::GrandDuchy => "Grand Duchy",
            FactionId::Federation => "Federation",
            FactionId::Republic => "Republic",
            FactionId::Commonwealth => "Commonwealth",
            FactionId::Union => "Union",
        }
    }

    pub fn formal_title(&self) -> (s: &'static str)
        ensures
            s@ == faction_formal_title(*self),
    {
        match self {
            FactionId::Empire => "アシリア帝国入植遠征軍",
            FactionId::GrandDuchy => "北方大公国開拓使団",
            FactionId::Federation => "アシリア南部自由連邦",
            FactionId::Republic => "アシリア人民統一共和国",
            FactionId::Commonwealth => "環洋共同体企業連合",
            FactionId::Union => "バシレス統合覇権連合",
        }
    }

    pub fn description(&self) -> (s: &'static str)
        ensures
            s@ == faction_description(*self),
    {
        match self {
            FactionId::Empire => {
                "アシリア大陸東部を領有する超大国。皇帝不在の中、皇太子が主導。貴族制と資本家が共存し、強大な軍事力と拡張志向を持つ。"
            },
            FactionId::GrandDuchy => {
                "アシリア大陸北東部から中央北部に広がる立憲君主制の北国。建前上は帝国の従属国だが実質的な対抗馬。高い科学技術と外交力を誇る。"
            },
            FactionId::Federation => {
                "アシリア大陸南部を領有する多民族連邦国家。豊かな資源と高い生産基盤を持ち、実利的な開拓・通商を重んじる。"
            },
            FactionId::Republic => {
                "アシリア大陸西部を領有する巨大集権国家。国家主導の計画経済と大規模な動員力を生かした急速なインフラ構築が得意。"
            },
            FactionId::Commonwealth => {
                "大陸北西部・南西部の島嶼部を拠点とする企業体と労働組合による連合体。通商ネットワークと生態系バイオテクノロジーに強み。"
            },
            FactionId::Union => {
                "バシレス大陸を統一する世界最高峰の覇権国家。高度な制度的統合と最先端のサイバネティクス・航空技術を誇る。"
            },
        }
    }
}

impl DiplomaticRelation {
    pub fn symbol(&self) -> (s: &'static str)
        ensures
            s@ == relation_symbol(*self),
    {
        match self {
            DiplomaticRelation::Friendly => "◎",
            DiplomaticRelation::Normal => "◯",
            DiplomaticRelation::Cautious => "△",
            DiplomaticRelation::Hostile => "✕",
        }
    }

    pub fn text_ja(&self) -> (s: &'static str)
        ensures
            s@ == relation_text_ja(*self),
    {
        match self {
            DiplomaticRelation::Friendly => "友好 (良好)",
            DiplomaticRelation::Normal => "中立 (平常)",
            DiplomaticRelation::Cautious => "警戒 (緊張)",
            DiplomaticRelation::Hostile => "敵対 (交戦)",
        }
    }
}

/// The faction the player controls.
#[derive(Debug, Clone, Copy, PartialEq, Eq, Structural)]
pub struct PlayerFaction(pub FactionId);

impl Default for PlayerFaction {
    fn default() -> (p: PlayerFaction)
        ensures
            p.0 == FactionId::Empire,
    {
        PlayerFaction(FactionId::Empire)
    }
}

/// A score clamped to the range [-100, 100].
pub open spec fn clamp_score(s: int) -> int {
    if s < -100 {
        -100
    } else if s > 100 {
        100
    } else {
        s
    }
}

/// The attitude that a friendship score amounts to.
pub open spec fn relation_for_score(s: int) -> DiplomaticRelation {
    if s >= 40 {
        DiplomaticRelation::Friendly
    } else if s >= -15 {
        DiplomaticRelation::Normal
    } else if s >= -60 {
        DiplomaticRelation::Cautious
    } else {
        DiplomaticRelation::Hostile
    }
}

/// The score a relation of the initial diplomacy table starts with.
pub open spec fn initial_score_of(r: DiplomaticRelation) -> int {
    match r {
        DiplomaticRelation::Friendly => 60,
        DiplomaticRelation::Normal => 0,
        DiplomaticRelation::Cautious => -30,
        DiplomaticRelation::Hostile => -80,
    }
}

/// The initial diplomacy table between two different factions:
///
/// ```text
///    B  C  D  E  F
/// A  △  ◯  ◎  ◯  △
/// B     ◯  ◯  ◎  ◎
/// C        ◯  ◯  ◯
/// D           △  △
/// E              ◯
/// ```
pub open spec fn initial_relation(a: FactionId, b: FactionId) -> DiplomaticRelation {
    let i = if faction_index(a) < faction_index(b) { faction_index(a) } else { faction_index(b) };
    let j = if faction_index(a) < faction_index(b) { faction_index(b) } else { faction_index(a) };
    if (i == 0 && (j == 1 || j == 5)) || (i == 3 && (j == 4 || j == 5)) {
        DiplomaticRelation::Cautious
    } else if (i == 0 && j == 3) || (i == 1 && (j == 4 || j == 5)) {
        DiplomaticRelation::Friendly
    } else {
        DiplomaticRelation::Normal
    }
}

/// Storage slot of the unordered pair {a, b}.
pub open spec fn pair_slot(a: FactionId, b: FactionId) -> int {
    let i = faction_index(a);
    let j = faction_index(b);
    if i < j {
        i * 6 + j
    } else {
        j * 6 + i
    }
}

/// Diplomatic state of all factions: a friendship score for each pair of
/// different factions, and the number of tiles each faction holds.
#[derive(Debug, Clone)]
pub struct FactionManager {
    relations: Vec<i32>,
    territory_counts: Vec<usize>,
}

impl FactionManager {
    /// Internal consistency: one slot per ordered index pair, one count per
    /// faction, every stored score within [-100, 100].
    pub closed spec fn wf(self) -> bool {
        &&& self.relations@.len() == 36
        &&& self.territory_counts@.len() == 6
        &&& forall|k: int| 0 <= k < 36 ==> -100 <= #[trigger] self.relations@[k] <= 100
    }

    /// The friendship score between two factions; a faction scores 100 with
    /// itself.
    pub closed spec fn score(self, a: FactionId, b: FactionId) -> int {
        if a == b {
            100
        } else {
            self.relations@[pair_slot(a, b)] as int
        }
    }

    /// The number of tiles held by a faction.
    pub closed spec fn territory(self, f: FactionId) -> int {
        self.territory_counts@[faction_index(f)] as int
    }

    /// A manager holding the initial diplomacy table and no territory.
    pub fn new() -> (m: FactionManager)
        ensures
            m.wf(),
            forall|a: FactionId, b: FactionId|
                a != b ==> #[trigger] m.score(a, b) == initial_score_of(initial_relation(a, b)),
            forall|a: FactionId, b: FactionId|
                a != b ==> #[trigger] m.score(a, b) == (if same_pair(a, b, FactionId::Empire, FactionId::GrandDuchy)
                    || same_pair(a, b, FactionId::Empire, FactionId::Union) || same_pair(
                    a,
                    b,
                    FactionId::Republic,
                    FactionId::Commonwealth,
                ) || same_pair(a, b, FactionId::Republic, FactionId::Union) {
                    -30int
                } else if same_pair(a, b, FactionId::Empire, FactionId::Republic) || same_pair(
                    a,
                    b,
                    FactionId::GrandDuchy,
                    FactionId::Commonwealth,
                ) || same_pair(a, b, FactionId::GrandDuchy, FactionId::Union) {
                    60int
                } else {
                    0int
                }),
            forall|f: FactionId| #[trigger] m.territory(f) == 0,
    {
        let mut relations: Vec<i32> = Vec::new();
        let mut k: usize = 0;
        while k < 36
            invariant
                k <= 36,
                relations@.len() == k,
                forall|i: int| 0 <= i < k ==> relations@[i] == 0,
            decreases 36 - k,
        {
            relations.push(0);
            k = k + 1;
        }
        let mut territory_counts: Vec<usize> = Vec::new();
        let mut k: usize = 0;
        while k < 6
            invariant
                k <= 6,
                territory_counts@.len() == k,
                forall|i: int| 0 <= i < k ==> territory_counts@[i] == 0,
            decreases 6 - k,
        {
            territory_counts.push(0);
            k = k + 1;
        }
        let mut mgr = FactionManager { relations, territory_counts };
        mgr.init_default_diplomacy();
        mgr
    }

    /// Loads the initial diplomacy table and sets every territory count to 0.
    fn init_default_diplomacy(&mut self)
        requires
            old(self).wf(),
        ensures
            final(self).wf(),
            forall|a: FactionId, b: FactionId|
                a != b ==> #[trigger] final(self).score(a, b) == initial_score_of(
                    initial_relation(a, b),
                ),
            forall|f: FactionId| #[trigger] final(self).territory(f) == 0,
    {
        let s = |r: DiplomaticRelation| -> (v: i32)
            ensures
                v == initial_score_of(r),
            {
                match r {
                    DiplomaticRelation::Friendly => 60,
                    DiplomaticRelation::Normal => 0,
                    DiplomaticRelation::Cautious => -30,
                    DiplomaticRelation::Hostile => -80,
                }
            };
        self.set_relation_score(FactionId::Empire, FactionId::GrandDuchy, s(DiplomaticRelation::Cautious));
        self.set_relation_score(FactionId::Empire, FactionId::Federation, s(DiplomaticRelation::Normal));
        self.set_relation_score(FactionId::Empire, FactionId::Republic, s(DiplomaticRelation::Friendly));
        self.set_relation_score(FactionId::Empire, FactionId::Commonwealth, s(DiplomaticRelation::Normal));
        self.set_relation_score(FactionId::Empire, FactionId::Union, s(DiplomaticRelation::Cautious));
        self.set_relation_score(FactionId::GrandDuchy, FactionId::Federation, s(DiplomaticRelation::Normal));
        self.set_relation_score(FactionId::GrandDuchy, FactionId::Republic, s(DiplomaticRelation::Normal));
        self.set_relation_score(FactionId::GrandDuchy, FactionId::Commonwealth, s(DiplomaticRelation::Friendly));
        self.set_relation_score(FactionId::GrandDuchy, FactionId::Union, s(DiplomaticRelation::Friendly));
        self.set_relation_score(FactionId::Federation, FactionId::Republic, s(DiplomaticRelation::Normal));
        self.set_relation_score(FactionId::Federation, FactionId::Commonwealth, s(DiplomaticRelation::Normal));
        self.set_relation_score(FactionId::Federation, FactionId::Union, s(DiplomaticRelation::Normal));
        self.set_relation_score(FactionId::Republic, FactionId::Commonwealth, s(DiplomaticRelation::Cautious));
        self.set_relation_score(FactionId::Republic, FactionId::Union, s(DiplomaticRelation::Cautious));
        self.set_relation_score(FactionId::Commonwealth, FactionId::Union, s(DiplomaticRelation::Normal));
        let mut k: usize = 0;
        while k < 6
            invariant
                k <= 6,
                self.wf(),
                forall|a: FactionId, b: FactionId|
                    a != b ==> #[trigger] self.score(a, b) == initial_score_of(
                        initial_relation(a, b),
                    ),
                forall|f: FactionId| faction_index(f) < k ==> #[trigger] self.territory(f) == 0,
            decreases 6 - k,
        {
            self.set_territory_count(faction_by_index(k), 0);
            k = k + 1;
        }
    }

    /// The attitude between two factions; a faction is always friendly with
    /// itself.
    pub fn relation_between(&self, f1: FactionId, f2: FactionId) -> (r: DiplomaticRelation)
        requires
            self.wf(),
        ensures
            r == (if f1 == f2 {
                DiplomaticRelation::Friendly
            } else {
                relation_for_score(self.score(f1, f2))
            }),
    {
        if f1 == f2 {
            return DiplomaticRelation::Friendly;
        }
        let score = self.get_relation_score(f1, f2);
        if score >= 40 {
            DiplomaticRelation::Friendly
        } else if score >= -15 {
            DiplomaticRelation::Normal
        } else if score >= -60 {
            DiplomaticRelation::Cautious
        } else {
            DiplomaticRelation::Hostile
        }
    }

    /// The friendship score between two factions (100 for a faction with
    /// itself).
    pub fn get_relation_score(&self, f1: FactionId, f2: FactionId) -> (s: i32)
        requires
            self.wf(),
        ensures
            s == self.score(f1, f2),
            f1 == f2 ==> s == 100,
    {
        if f1 == f2 {
            return 100;
        }
        let (a, b) = Self::sort_pair(f1, f2);
        self.relations[a.index() * 6 + b.index()]
    }

    /// Sets the score between two different factions, clamped to
    /// [-100, 100]; does nothing when both are the same faction.
    pub fn set_relation_score(&mut self, f1: FactionId, f2: FactionId, score: i32)
        requires
            old(self).wf(),
        ensures
            final(self).wf(),
            f1 != f2 ==> final(self).score(f1, f2) == clamp_score(score as int),
            forall|a: FactionId, b: FactionId|
                pair_slot(a, b) != pair_slot(f1, f2) || f1 == f2 ==> #[trigger] final(self).score(
                    a,
                    b,
                ) == old(self).score(a, b),
            forall|f: FactionId| #[trigger] final(self).territory(f) == old(self).territory(f),
    {
        if f1 == f2 {
            return;
        }
        let (a, b) = Self::sort_pair(f1, f2);
        let clamped = if score < -100 {
            -100
        } else if score > 100 {
            100
        } else {
            score
        };
        let slot = a.index() * 6 + b.index();
        self.relations.set(slot, clamped);
        proof {
            assert forall|x: FactionId, y: FactionId|
                pair_slot(x, y) != pair_slot(f1, f2) implies #[trigger] self.score(x, y) == old(
                self,
            ).score(x, y) by {
                if x != y {
                    lemma_pair_slot_range(x, y);
                }
            }
        }
    }

    /// Adds `delta` to the score between two factions, then clamps as
    /// `set_relation_score` does.
    pub fn modify_relation(&mut self, f1: FactionId, f2: FactionId, delta: i32)
        requires
            old(self).wf(),
            i32::MIN <= old(self).score(f1, f2) + delta <= i32::MAX,
        ensures
            final(self).wf(),
            f1 != f2 ==> final(self).score(f1, f2) == clamp_score(old(self).score(f1, f2) + delta),
            forall|a: FactionId, b: FactionId|
                pair_slot(a, b) != pair_slot(f1, f2) || f1 == f2 ==> #[trigger] final(self).score(
                    a,
                    b,
                ) == old(self).score(a, b),
            forall|f: FactionId| #[trigger] final(self).territory(f) == old(self).territory(f),
    {
        let current = self.get_relation_score(f1, f2);
        self.set_relation_score(f1, f2, current + delta);
    }

    /// The number of tiles held by a faction.
    pub fn territory_count(&self, faction: FactionId) -> (n: usize)
        requires
            self.wf(),
        ensures
            n == self.territory(faction),
    {
        self.territory_counts[faction.index()]
    }

    /// Records the number of tiles held by a faction.
    pub fn set_territory_count(&mut self, faction: FactionId, count: usize)
        requires
            old(self).wf(),
        ensures
            final(self).wf(),
            final(self).territory(faction) == count,
            forall|f: FactionId|
                f != faction ==> #[trigger] final(self).territory(f) == old(self).territory(f),
            forall|a: FactionId, b: FactionId| #[trigger]
                final(self).score(a, b) == old(self).score(a, b),
    {
        self.territory_counts.set(faction.index(), count);
    }

    /// The pair ordered by position in `FactionId::ALL`.
    fn sort_pair(f1: FactionId, f2: FactionId) -> (p: (FactionId, FactionId))
        ensures
            faction_index(p.0) <= faction_index(p.1),
            (p.0 == f1 && p.1 == f2) || (p.0 == f2 && p.1 == f1),
    {
        let idx1 = f1.index();
        let idx2 = f2.index();
        if idx1 < idx2 {
            (f1, f2)
        } else {
            (f2, f1)
        }
    }
}

impl Default for FactionManager {
    fn default() -> (m: FactionManager)
        ensures
            m.wf(),
            forall|a: FactionId, b: FactionId|
                a != b ==> #[trigger] m.score(a, b) == initial_score_of(initial_relation(a, b)),
            forall|a: FactionId, b: FactionId|
                a != b ==> #[trigger] m.score(a, b) == (if same_pair(a, b, FactionId::Empire, FactionId::GrandDuchy)
                    || same_pair(a, b, FactionId::Empire, FactionId::Union) || same_pair(
                    a,
                    b,
                    FactionId::Republic,
                    FactionId::Commonwealth,
                ) || same_pair(a, b, FactionId::Republic, FactionId::Union) {
                    -30int
                } else if same_pair(a, b, FactionId::Empire, FactionId::Republic) || same_pair(
                    a,
                    b,
                    FactionId::GrandDuchy,
                    FactionId::Commonwealth,
                ) || same_pair(a, b, FactionId::GrandDuchy, FactionId::Union) {
                    60int
                } else {
                    0int
                }),
            forall|f: FactionId| #[trigger] m.territory(f) == 0,
    {
        FactionManager::new()
    }
}

/// The faction at a position of `FactionId::ALL`.
pub fn faction_by_index(i: usize) -> (f: FactionId)
    requires
        i < 6,
    ensures
        f == faction_at(i as int),
        faction_index(f) == i,
{
    match i {
        0 => FactionId::Empire,
        1 => FactionId::GrandDuchy,
        2 => FactionId::Federation,
        3 => FactionId::Republic,
        4 => FactionId::Commonwealth,
        _ => FactionId::Union,
    }
}

proof fn lemma_pair_slot_range(a: FactionId, b: FactionId)
    requires
        a != b,
    ensures
        0 <= pair_slot(a, b) < 36,
        pair_slot(a, b) == pair_slot(b, a),
{
}

/// How friendly an attitude is: 3 for friendly down to 0 for hostile.
pub open spec fn friendliness(r: DiplomaticRelation) -> int {
    match r {
        DiplomaticRelation::Friendly => 3,
        DiplomaticRelation::Normal => 2,
        DiplomaticRelation::Cautious => 1,
        DiplomaticRelation::Hostile => 0,
    }
}

/// The score between two factions does not depend on the order in which
/// they are named.
pub proof fn lemma_score_symmetric(m: FactionManager, a: FactionId, b: FactionId)
    ensures
        m.score(a, b) == m.score(b, a),
{
}

/// A faction's score with itself is always 100.
pub proof fn lemma_score_with_itself(m: FactionManager, f: FactionId)
    ensures
        m.score(f, f) == 100,
{
}

/// Every score stays within [-100, 100].
pub proof fn lemma_score_bounded(m: FactionManager, a: FactionId, b: FactionId)
    requires
        m.wf(),
    ensures
        -100 <= m.score(a, b) <= 100,
{
    if a != b {
        lemma_pair_slot_range(a, b);
    }
}

/// A higher score never gives a less friendly attitude.
pub proof fn lemma_relation_monotone(s1: int, s2: int)
    requires
        s1 <= s2,
    ensures
        friendliness(relation_for_score(s1)) <= friendliness(relation_for_score(s2)),
{
}

/// The starting score of each attitude of the initial table is read back as
/// that same attitude.
pub proof fn lemma_initial_scores_classify_back(r: DiplomaticRelation)
    ensures
        relation_for_score(initial_score_of(r)) == r,
{
}

/// The initial table is symmetric and never hostile.
pub proof fn lemma_initial_table_symmetric(a: FactionId, b: FactionId)
    ensures
        initial_relation(a, b) == initial_relation(b, a),
        initial_relation(a, b) != DiplomaticRelation::Hostile,
{
}

/// A change of score that stays within [-100, 100] is undone by the opposite
/// change.
pub proof fn lemma_modify_undone(score: int, delta: int)
    requires
        -100 <= score <= 100,
        -100 <= score + delta <= 100,
    ensures
        clamp_score(clamp_score(score + delta) - delta) == score,
{
}

/// `{a, b}` is the unordered pair `{x, y}`.
pub open spec fn same_pair(a: FactionId, b: FactionId, x: FactionId, y: FactionId) -> bool {
    (a == x && b == y) || (a == y && b == x)
}

/// The initial diplomacy table, pair by pair: A–B, A–F, D–E and D–F start
/// cautious (score -30); A–D, B–E and B–F start friendly (score 60); every
/// other pair of different factions starts neutral (score 0).
pub proof fn lemma_initial_table_entries(a: FactionId, b: FactionId)
    requires
        a != b,
    ensures
        (same_pair(a, b, FactionId::Empire, FactionId::GrandDuchy) || same_pair(
            a,
            b,
            FactionId::Empire,
            FactionId::Union,
        ) || same_pair(a, b, FactionId::Republic, FactionId::Commonwealth) || same_pair(
            a,
            b,
            FactionId::Republic,
            FactionId::Union,
        )) <==> initial_relation(a, b) == DiplomaticRelation::Cautious,
        (same_pair(a, b, FactionId::Empire, FactionId::Republic) || same_pair(
            a,
            b,
            FactionId::GrandDuchy,
            FactionId::Commonwealth,
        ) || same_pair(a, b, FactionId::GrandDuchy, FactionId::Union)) <==> initial_relation(a, b)
            == DiplomaticRelation::Friendly,
        initial_relation(a, b) != DiplomaticRelation::Hostile,
        initial_score_of(DiplomaticRelation::Cautious) == -30,
        initial_score_of(DiplomaticRelation::Friendly) == 60,
        initial_score_of(DiplomaticRelation::Normal) == 0,
{
}

} // verus!
