use vstd::prelude::*;
use crate::faction::{faction_code, faction_name_ja, FactionId};
use crate::hex::HexCoord;
use crate::map_grid::MapGrid;
use crate::resources::FactionResources;
use crate::terrain::{passable_ground, TerrainType};
use crate::territory::FactionOutpost;
use crate::text::{decimal, int_text, push_decimal, push_int, string_append};

verus! {

/// Unit kinds a city can produce.
#[derive(Debug, Clone, Copy, PartialEq, Eq, Hash, Structural)]
pub enum CombatGroupType {
    Scout,
    LightInfantry,
    Colonist,
}

/// Production, energy and food that a unit costs.
pub open spec fn unit_cost(t: CombatGroupType) -> (int, int, int) {
    match t {
        CombatGroupType::Scout => (30, 15, 0),
        CombatGroupType::LightInfantry => (45, 25, 0),
        CombatGroupType::Colonist => (75, 0, 40),
    }
}

/// The production, energy and food that a unit costs.
pub fn unit_costs(t: CombatGroupType) -> (c: (i32, i32, i32))
    ensures
        (c.0 as int, c.1 as int, c.2 as int) == unit_cost(t),
{
    match t {
        CombatGroupType::Scout => (30, 15, 0),
        CombatGroupType::LightInfantry => (45, 25, 0),
        CombatGroupType::Colonist => (75, 0, 40),
    }
}

/// Upgrades an outpost when the player can pay 60 production and 40 energy:
/// the outpost gains a level and the income of production and energy rises
/// by 3 each. Returns whether the upgrade happened; nothing changes when it
/// did not.
pub fn try_upgrade_outpost(res: &mut FactionResources, outpost: &mut FactionOutpost) -> (upgraded: bool)
    requires
        old(outpost).level < u32::MAX,
        old(res).production_per_turn <= i32::MAX - 3,
        old(res).energy_per_turn <= i32::MAX - 3,
    ensures
        upgraded == (old(res).production >= 60 && old(res).energy >= 40),
        upgraded ==> *final(res) == (FactionResources {
            production: (old(res).production - 60) as i32,
            energy: (old(res).energy - 40) as i32,
            production_per_turn: (old(res).production_per_turn + 3) as i32,
            energy_per_turn: (old(res).energy_per_turn + 3) as i32,
            ..*old(res)
        }),
        upgraded ==> final(outpost).level == old(outpost).level + 1,
        !upgraded ==> *final(res) == *old(res) && final(outpost).level == old(outpost).level,
        final(outpost).faction == old(outpost).faction,
        final(outpost).coord == old(outpost).coord,
        final(outpost).name@ == old(outpost).name@,
{
    let prod_cost: i32 = 60;
    let energy_cost: i32 = 40;
    if res.production >= prod_cost && res.energy >= energy_cost {
        res.production = res.production - prod_cost;
        res.energy = res.energy - energy_cost;
        outpost.level = outpost.level + 1;
        res.production_per_turn = res.production_per_turn + 3;
        res.energy_per_turn = res.energy_per_turn + 3;
        true
    } else {
        false
    }
}

/// Whether the player can pay for a unit.
pub open spec fn can_afford(res: FactionResources, t: CombatGroupType) -> bool {
    res.production >= unit_cost(t).0 && res.energy >= unit_cost(t).1 && res.food >= unit_cost(
        t,
    ).2
}

/// A free tile for a new unit: it is a tile of the map, ground units can
/// enter it, and no unit stands on it.
pub open spec fn free_spawn_tile(
    tiles: Map<HexCoord, TerrainType>,
    occupied: Seq<HexCoord>,
    c: HexCoord,
) -> bool {
    tiles.contains_key(c) && passable_ground(tiles[c]) && !occupied.contains(c)
}

/// Where a new unit appears: the first free neighbour of the outpost, in
/// neighbour order, or the outpost's own tile when none is free.
pub open spec fn spawn_tile(tiles: Map<HexCoord, TerrainType>, occupied: Seq<HexCoord>, base: HexCoord) -> HexCoord {
    let ns = base.neighbor_seq();
    if exists|i: int| 0 <= i < 6 && free_spawn_tile(tiles, occupied, #[trigger] ns[i]) {
        ns[choose|i: int|
            0 <= i < 6 && free_spawn_tile(tiles, occupied, #[trigger] ns[i]) && forall|j: int|
                0 <= j < i ==> !free_spawn_tile(tiles, occupied, #[trigger] ns[j])]
    } else {
        base
    }
}

fn is_occupied(occupied: &Vec<HexCoord>, c: HexCoord) -> (b: bool)
    ensures
        b == occupied@.contains(c),
{
    let mut i: usize = 0;
    while i < occupied.len()
        invariant
            i <= occupied@.len(),
            forall|j: int| 0 <= j < i ==> occupied@[j] != c,
        decreases occupied@.len() - i,
    {
        if occupied[i] == c {
            assert(occupied@[i as int] == c);
            return true;
        }
        i = i + 1;
    }
    false
}

/// The tile where a unit produced at an outpost on `base` appears, as
/// `spawn_tile` states; `occupied` lists the tiles units stand on.
pub fn find_spawn_tile(grid: &MapGrid, occupied: &Vec<HexCoord>, base: HexCoord) -> (c: HexCoord)
    requires
        grid.wf(),
        base.neighbors_computable(),
    ensures
        c == spawn_tile(grid.terrain_data.view(), occupied@, base),
{
    let ghost tiles = grid.terrain_data.view();
    let ns = base.neighbors();
    let ghost nseq = base.neighbor_seq();
    let mut i: usize = 0;
    while i < 6
        invariant
            grid.wf(),
            tiles == grid.terrain_data.view(),
            ns@ == nseq,
            nseq == base.neighbor_seq(),
            i <= 6,
            forall|j: int| 0 <= j < i ==> !free_spawn_tile(tiles, occupied@, #[trigger] nseq[j]),
        decreases 6 - i,
    {
        let candidate = ns[i];
        let free = match grid.terrain_at(candidate) {
            Some(terrain) => terrain.is_passable_ground() && !is_occupied(occupied, candidate),
            None => false,
        };
        if free {
            proof {
                assert(free_spawn_tile(tiles, occupied@, nseq[i as int]));
                let w = choose|w: int|
                    0 <= w < 6 && free_spawn_tile(tiles, occupied@, #[trigger] nseq[w]) && forall|j: int|
                        0 <= j < w ==> !free_spawn_tile(tiles, occupied@, #[trigger] nseq[j]);
                assert(w == i) by {
                    if w < i {
                        assert(!free_spawn_tile(tiles, occupied@, nseq[w]));
                    }
                    if w > i {
                        assert(!free_spawn_tile(tiles, occupied@, nseq[i as int]));
                    }
                }
            }
            return candidate;
        }
        i = i + 1;
    }
    base
}

/// Why a unit could not be produced: the player lacks resources; the costs
/// are given.
#[derive(Debug, Clone, Copy, PartialEq, Eq, Structural)]
pub struct InsufficientResources {
    pub production: i32,
    pub energy: i32,
    pub food: i32,
}

/// Produces a unit at an outpost on `base`: when the player can pay, the
/// costs are deducted and the unit's tile is returned; otherwise nothing
/// changes and the costs are returned.
pub fn produce_unit(
    res: &mut FactionResources,
    grid: &MapGrid,
    occupied: &Vec<HexCoord>,
    base: HexCoord,
    unit_type: CombatGroupType,
) -> (r: Result<HexCoord, InsufficientResources>)
    requires
        grid.wf(),
        base.neighbors_computable(),
    ensures
        match r {
            Ok(c) => {
                &&& can_afford(*old(res), unit_type)
                &&& c == spawn_tile(grid.terrain_data.view(), occupied@, base)
                &&& *final(res) == (FactionResources {
                    production: (old(res).production - unit_cost(unit_type).0) as i32,
                    energy: (old(res).energy - unit_cost(unit_type).1) as i32,
                    food: (old(res).food - unit_cost(unit_type).2) as i32,
                    ..*old(res)
                })
            },
            Err(e) => {
                &&& !can_afford(*old(res), unit_type)
                &&& *final(res) == *old(res)
                &&& (e.production as int, e.energy as int, e.food as int) == unit_cost(unit_type)
            },
        },
{
    let (prod_cost, energy_cost, food_cost) = unit_costs(unit_type);
    if res.production < prod_cost || res.energy < energy_cost || res.food < food_cost {
        return Err(InsufficientResources { production: prod_cost, energy: energy_cost, food: food_cost });
    }
    let spawn = find_spawn_tile(grid, occupied, base);
    res.production = res.production - prod_cost;
    res.energy = res.energy - energy_cost;
    res.food = res.food - food_cost;
    Ok(spawn)
}

/// The open state of the city window and the outpost it shows (by
/// position in the list of outposts).
#[derive(Debug, Clone, Copy, PartialEq, Eq, Structural)]
pub struct CityModalState {
    pub is_open: bool,
    pub target_outpost: Option<usize>,
}

impl CityModalState {
    /// Closed, with no outpost.
    pub fn new() -> (s: CityModalState)
        ensures
            !s.is_open,
            s.target_outpost is None,
    {
        CityModalState { is_open: false, target_outpost: None }
    }
}

impl Default for CityModalState {
    fn default() -> (s: CityModalState)
        ensures
            !s.is_open,
            s.target_outpost is None,
    {
        CityModalState::new()
    }
}

/// What the city window's key handling asks for.
#[derive(Debug, Clone, Copy, PartialEq, Eq, Structural)]
pub enum CityModalEffect {
    Nothing,
    /// Show the window for the outpost at this position.
    Open(usize),
    /// Remove the window.
    Close,
}

/// Position of the first outpost of `player` on `tile`, if any.
pub open spec fn first_player_outpost_at(
    outposts: Seq<(FactionId, HexCoord)>,
    player: FactionId,
    tile: Option<HexCoord>,
) -> Option<int> {
    if tile is Some && exists|i: int|
        0 <= i < outposts.len() && #[trigger] outposts[i] == (player, tile->0) {
        Some(
            choose|i: int|
                0 <= i < outposts.len() && #[trigger] outposts[i] == (player, tile->0) && forall|j: int|
                    0 <= j < i ==> #[trigger] outposts[j] != (player, tile->0),
        )
    } else {
        None
    }
}

/// Position of the first outpost of `player`, if any.
pub open spec fn first_player_outpost(outposts: Seq<(FactionId, HexCoord)>, player: FactionId) -> Option<int> {
    if exists|i: int| 0 <= i < outposts.len() && #[trigger] outposts[i].0 == player {
        Some(
            choose|i: int|
                0 <= i < outposts.len() && #[trigger] outposts[i].0 == player && forall|j: int|
                    0 <= j < i ==> #[trigger] outposts[j].0 != player,
        )
    } else {
        None
    }
}

/// The city window after one frame of keys: C toggles it, and opening shows
/// the player's outpost on the selected tile, else the player's first
/// outpost, and stays closed when the player has none; Escape closes an
/// open window.
pub open spec fn city_modal_toggle(
    s: CityModalState,
    c_pressed: bool,
    escape_pressed: bool,
    selected: Option<HexCoord>,
    player: FactionId,
    outposts: Seq<(FactionId, HexCoord)>,
) -> (CityModalState, CityModalEffect) {
    if c_pressed {
        if !s.is_open {
            let target = match first_player_outpost_at(outposts, player, selected) {
                Some(i) => Some(i),
                None => first_player_outpost(outposts, player),
            };
            match target {
                Some(i) => (
                    CityModalState { is_open: true, target_outpost: Some(i as usize) },
                    CityModalEffect::Open(i as usize),
                ),
                None => (CityModalState { is_open: false, target_outpost: None }, CityModalEffect::Nothing),
            }
        } else {
            (CityModalState { is_open: false, ..s }, CityModalEffect::Close)
        }
    } else if escape_pressed && s.is_open {
        (CityModalState { is_open: false, ..s }, CityModalEffect::Close)
    } else {
        (s, CityModalEffect::Nothing)
    }
}

fn find_player_outpost(outposts: &Vec<(FactionId, HexCoord)>, player: FactionId, tile: Option<HexCoord>) -> (r: Option<usize>)
    ensures
        match tile {
            Some(t) => r == (match first_player_outpost_at(outposts@, player, tile) {
                Some(i) => Some(i as usize),
                None => None,
            }),
            None => r == (match first_player_outpost(outposts@, player) {
                Some(i) => Some(i as usize),
                None => None,
            }),
        },
{
    let mut i: usize = 0;
    while i < outposts.len()
        invariant
            i <= outposts@.len(),
            forall|j: int|
                0 <= j < i ==> match tile {
                    Some(t) => #[trigger] outposts@[j] != (player, t),
                    None => outposts@[j].0 != player,
                },
        decreases outposts@.len() - i,
    {
        let (f, c) = outposts[i];
        let hit = match tile {
            Some(t) => f == player && c == t,
            None => f == player,
        };
        if hit {
            proof {
                match tile {
                    Some(t) => {
                        assert(outposts@[i as int] == (player, t));
                        let w = choose|w: int|
                            0 <= w < outposts@.len() && #[trigger] outposts@[w] == (player, t) && forall|j: int|
                                0 <= j < w ==> #[trigger] outposts@[j] != (player, t);
                        assert(w == i) by {
                            if w < i {
                                assert(outposts@[w] != (player, t));
                            }
                            if w > i {
                                assert(outposts@[i as int] != (player, t));
                            }
                        }
                    },
                    None => {
                        assert(outposts@[i as int].0 == player);
                        let w = choose|w: int|
                            0 <= w < outposts@.len() && #[trigger] outposts@[w].0 == player && forall|j: int|
                                0 <= j < w ==> #[trigger] outposts@[j].0 != player;
                        assert(w == i) by {
                            if w < i {
                                assert(outposts@[w].0 != player);
                            }
                            if w > i {
                                assert(outposts@[i as int].0 != player);
                            }
                        }
                    },
                }
            }
            return Some(i);
        }
        i = i + 1;
    }
    None
}

/// Handles the C and Escape keys for the city window, as `city_modal_toggle`
/// states; `outposts` lists every outpost's faction and tile.
pub fn toggle_city_modal(
    state: &mut CityModalState,
    c_pressed: bool,
    escape_pressed: bool,
    selected: Option<HexCoord>,
    player: FactionId,
    outposts: &Vec<(FactionId, HexCoord)>,
) -> (effect: CityModalEffect)
    ensures
        (*final(state), effect) == city_modal_toggle(
            *old(state),
            c_pressed,
            escape_pressed,
            selected,
            player,
            outposts@,
        ),
{
    if c_pressed {
        if !state.is_open {
            let mut target = match selected {
                Some(_) => find_player_outpost(outposts, player, selected),
                None => None,
            };
            if target.is_none() {
                target = find_player_outpost(outposts, player, None);
            }
            match target {
                Some(i) => {
                    state.is_open = true;
                    state.target_outpost = Some(i);
                    CityModalEffect::Open(i)
                },
                None => {
                    state.is_open = false;
                    state.target_outpost = None;
                    CityModalEffect::Nothing
                },
            }
        } else {
            state.is_open = false;
            CityModalEffect::Close
        }
    } else if escape_pressed && state.is_open {
        state.is_open = false;
        CityModalEffect::Close
    } else {
        CityModalEffect::Nothing
    }
}

/// Buttons of the city window.
#[derive(Debug, Clone, Copy, PartialEq, Eq, Structural)]
pub enum CityButtonAction {
    ProduceUnit(CombatGroupType),
    UpgradeCity,
    Close,
}

/// What a city window button did.
#[derive(Debug, Clone, Copy, PartialEq, Eq, Structural)]
pub enum CityActionOutcome {
    /// The window was closed.
    Closed,
    /// The outpost was upgraded to this level.
    Upgraded(u32),
    /// The player could not pay for the upgrade.
    UpgradeRefused,
    /// A unit of this kind was paid for and appears on this tile.
    Produced(CombatGroupType, HexCoord),
    /// The player could not pay for the unit; the costs are given.
    ProductionRefused(InsufficientResources),
    /// No outpost is shown; nothing happened.
    NoOutpost,
}

/// The position of the outpost the window shows, when it is one of
/// `count` outposts.
pub open spec fn shown_outpost(m: CityModalState, count: int) -> Option<int> {
    match m.target_outpost {
        Some(i) => if i < count {
            Some(i as int)
        } else {
            None
        },
        None => None,
    }
}

/// The costs of a unit as an `InsufficientResources` report.
pub open spec fn cost_report(t: CombatGroupType) -> InsufficientResources {
    InsufficientResources {
        production: unit_cost(t).0 as i32,
        energy: unit_cost(t).1 as i32,
        food: unit_cost(t).2 as i32,
    }
}

/// Carries out a click on a city window button. "Close" closes the window.
/// "Upgrade" upgrades the shown outpost as `try_upgrade_outpost` states.
/// "Produce" first checks that the player can pay, then places the unit next
/// to the shown outpost as `produce_unit` states; `occupied` lists the tiles
/// units stand on.
pub fn city_button_action(
    action: CityButtonAction,
    modal: &mut CityModalState,
    res: &mut FactionResources,
    outposts: &mut Vec<FactionOutpost>,
    grid: &MapGrid,
    occupied: &Vec<HexCoord>,
) -> (out: CityActionOutcome)
    requires
        grid.wf(),
        action == CityButtonAction::UpgradeCity ==> match shown_outpost(*old(modal), old(outposts)@.len() as int) {
            Some(i) => {
                &&& old(outposts)@[i].level < u32::MAX
                &&& old(res).production_per_turn <= i32::MAX - 3
                &&& old(res).energy_per_turn <= i32::MAX - 3
            },
            None => true,
        },
        action is ProduceUnit ==> match shown_outpost(*old(modal), old(outposts)@.len() as int) {
            Some(i) => old(outposts)@[i].coord.neighbors_computable(),
            None => true,
        },
    ensures
        final(outposts)@.len() == old(outposts)@.len(),
        final(modal).target_outpost == old(modal).target_outpost,
        match action {
            CityButtonAction::Close => {
                &&& out == CityActionOutcome::Closed
                &&& !final(modal).is_open
                &&& *final(res) == *old(res)
                &&& final(outposts)@ == old(outposts)@
            },
            CityButtonAction::UpgradeCity => {
                &&& final(modal).is_open == old(modal).is_open
                &&& match shown_outpost(*old(modal), old(outposts)@.len() as int) {
                    None => out == CityActionOutcome::NoOutpost && *final(res) == *old(res)
                        && final(outposts)@ == old(outposts)@,
                    Some(i) => {
                        &&& forall|j: int|
                            0 <= j < old(outposts)@.len() && j != i ==> #[trigger] final(outposts)@[j]
                                == old(outposts)@[j]
                        &&& final(outposts)@[i].faction == old(outposts)@[i].faction
                        &&& final(outposts)@[i].coord == old(outposts)@[i].coord
                        &&& final(outposts)@[i].name@ == old(outposts)@[i].name@
                        &&& if old(res).production >= 60 && old(res).energy >= 40 {
                            &&& out == CityActionOutcome::Upgraded((old(outposts)@[i].level + 1) as u32)
                            &&& final(outposts)@[i].level == old(outposts)@[i].level + 1
                            &&& *final(res) == (FactionResources {
                                production: (old(res).production - 60) as i32,
                                energy: (old(res).energy - 40) as i32,
                                production_per_turn: (old(res).production_per_turn + 3) as i32,
                                energy_per_turn: (old(res).energy_per_turn + 3) as i32,
                                ..*old(res)
                            })
                        } else {
                            &&& out == CityActionOutcome::UpgradeRefused
                            &&& final(outposts)@[i].level == old(outposts)@[i].level
                            &&& *final(res) == *old(res)
                        }
                    },
                }
            },
            CityButtonAction::ProduceUnit(t) => {
                &&& final(modal).is_open == old(modal).is_open
                &&& final(outposts)@ == old(outposts)@
                &&& if !can_afford(*old(res), t) {
                    out == CityActionOutcome::ProductionRefused(cost_report(t)) && *final(res) == *old(res)
                } else {
                    match shown_outpost(*old(modal), old(outposts)@.len() as int) {
                        None => out == CityActionOutcome::NoOutpost && *final(res) == *old(res),
                        Some(i) => {
                            &&& out == CityActionOutcome::Produced(
                                t,
                                spawn_tile(grid.terrain_data.view(), occupied@, old(outposts)@[i].coord),
                            )
                            &&& *final(res) == (FactionResources {
                                production: (old(res).production - unit_cost(t).0) as i32,
                                energy: (old(res).energy - unit_cost(t).1) as i32,
                                food: (old(res).food - unit_cost(t).2) as i32,
                                ..*old(res)
                            })
                        },
                    }
                }
            },
        },
{
    match action {
        CityButtonAction::Close => {
            modal.is_open = false;
            CityActionOutcome::Closed
        },
        CityButtonAction::UpgradeCity => {
            match modal.target_outpost {
                Some(i) => {
                    if i < outposts.len() {
                        let ghost before = outposts@;
                        let mut o = outposts.remove(i);
                        let upgraded = try_upgrade_outpost(res, &mut o);
                        let level = o.level;
                        outposts.insert(i, o);
                        proof {
                            assert forall|j: int|
                                0 <= j < before.len() && j != i implies #[trigger] outposts@[j]
                                    == before[j] by {
                                if j < i {
                                    assert(outposts@[j] == before.remove(i as int)[j]);
                                } else {
                                    assert(outposts@[j] == before.remove(i as int)[j - 1]);
                                }
                            }
                        }
                        if upgraded {
                            CityActionOutcome::Upgraded(level)
                        } else {
                            CityActionOutcome::UpgradeRefused
                        }
                    } else {
                        CityActionOutcome::NoOutpost
                    }
                },
                None => CityActionOutcome::NoOutpost,
            }
        },
        CityButtonAction::ProduceUnit(t) => {
            let (prod_cost, energy_cost, food_cost) = unit_costs(t);
            if res.production < prod_cost || res.energy < energy_cost || res.food < food_cost {
                return CityActionOutcome::ProductionRefused(
                    InsufficientResources { production: prod_cost, energy: energy_cost, food: food_cost },
                );
            }
            match modal.target_outpost {
                Some(i) => {
                    if i < outposts.len() {
                        let base = outposts[i].coord;
                        match produce_unit(res, grid, occupied, base, t) {
                            Ok(c) => CityActionOutcome::Produced(t, c),
                            Err(e) => CityActionOutcome::ProductionRefused(e),
                        }
                    } else {
                        CityActionOutcome::NoOutpost
                    }
                },
                None => CityActionOutcome::NoOutpost,
            }
        },
    }
}

/// The notice line the city window shows after a button: the new level
/// after an upgrade, or the costs that could not be paid. Other outcomes
/// show no notice.
pub open spec fn city_notice_text(out: CityActionOutcome) -> Option<Seq<char>> {
    match out {
        CityActionOutcome::Upgraded(level) => Some(
            "✔ 基地拡張完了！ Lv."@ + decimal(level as nat) + " に昇格しました。（生産/エネルギー +3/ターン）"@,
        ),
        CityActionOutcome::UpgradeRefused => Some("❌ 資源が不足しています（必要: 生産 60 / エネルギー 40）"@),
        CityActionOutcome::ProductionRefused(c) => Some(
            "❌ 資源が不足しています（必要: 生産 "@ + int_text(c.production as int) + " / エネルギー "@
                + int_text(c.energy as int) + " / 食糧 "@ + int_text(c.food as int) + "）"@,
        ),
        _ => None,
    }
}

/// The notice line for a city window outcome, as `city_notice_text` states.
pub fn city_notice(out: CityActionOutcome) -> (t: Option<String>)
    ensures
        match city_notice_text(out) {
            Some(text) => t is Some && t->0@ == text,
            None => t is None,
        },
{
    match out {
        CityActionOutcome::Upgraded(level) => {
            let mut s = String::from_str("✔ 基地拡張完了！ Lv.");
            push_decimal(&mut s, level as u64);
            string_append(&mut s, " に昇格しました。（生産/エネルギー +3/ターン）");
            Some(s)
        },
        CityActionOutcome::UpgradeRefused => Some(
            String::from_str("❌ 資源が不足しています（必要: 生産 60 / エネルギー 40）"),
        ),
        CityActionOutcome::ProductionRefused(c) => {
            let mut s = String::from_str("❌ 資源が不足しています（必要: 生産 ");
            push_int(&mut s, c.production as i64);
            string_append(&mut s, " / エネルギー ");
            push_int(&mut s, c.energy as i64);
            string_append(&mut s, " / 食糧 ");
            push_int(&mut s, c.food as i64);
            string_append(&mut s, "）");
            Some(s)
        },
        _ => None,
    }
}

/// The heading of the city window.
pub open spec fn city_header_text(name: Seq<char>) -> Seq<char> {
    "⬢ "@ + name + " // 基地司令部"@
}

/// The heading of the city window, as `city_header_text` states.
pub fn city_header(outpost: &FactionOutpost) -> (t: String)
    ensures
        t@ == city_header_text(outpost.name@),
{
    let mut t = String::from_str("⬢ ");
    string_append(&mut t, outpost.name.as_str());
    string_append(&mut t, " // 基地司令部");
    t
}

/// The allegiance and rank line of the city window.
pub open spec fn city_rank_text(f: FactionId, level: u32) -> Seq<char> {
    "所属: 国"@ + faction_code(f) + "【"@ + faction_name_ja(f) + "】  都市ランク: Lv."@ + decimal(
        level as nat,
    ) + "  防衛値: 100/100"@
}

/// The allegiance and rank line of the city window, as `city_rank_text`
/// states.
pub fn city_rank(outpost: &FactionOutpost) -> (t: String)
    ensures
        t@ == city_rank_text(outpost.faction, outpost.level),
{
    let mut t = String::from_str("所属: 国");
    string_append(&mut t, outpost.faction.code());
    string_append(&mut t, "【");
    string_append(&mut t, outpost.faction.name_ja());
    string_append(&mut t, "】  都市ランク: Lv.");
    push_decimal(&mut t, outpost.level as u64);
    string_append(&mut t, "  防衛値: 100/100");
    t
}

/// A resource line of the city window: the income after a plus sign, then
/// the stockpile.
pub open spec fn income_text(per_turn: i32, stock: i32) -> Seq<char> {
    "+"@ + int_text(per_turn as int) + " /ターン (備蓄: "@ + int_text(stock as int) + ")"@
}

/// A resource line of the city window, as `income_text` states.
pub fn income_line(per_turn: i32, stock: i32) -> (t: String)
    ensures
        t@ == income_text(per_turn, stock),
{
    let mut t = String::from_str("+");
    push_int(&mut t, per_turn as i64);
    string_append(&mut t, " /ターン (備蓄: ");
    push_int(&mut t, stock as i64);
    string_append(&mut t, ")");
    t
}

/// The label of the upgrade button: the current level and the next.
pub open spec fn upgrade_label_text(level: u32) -> Seq<char> {
    "基地モジュール改修 (Lv."@ + decimal(level as nat) + " → Lv."@ + decimal((level + 1) as nat) + ")"@
}

/// The label of the upgrade button, as `upgrade_label_text` states.
pub fn upgrade_label(level: u32) -> (t: String)
    requires
        level < u32::MAX,
    ensures
        t@ == upgrade_label_text(level),
{
    let mut t = String::from_str("基地モジュール改修 (Lv.");
    push_decimal(&mut t, level as u64);
    string_append(&mut t, " → Lv.");
    push_decimal(&mut t, (level + 1) as u64);
    string_append(&mut t, ")");
    t
}

/// A new unit appears on the first free neighbour of its outpost, trying
/// the directions (+1, 0), (+1, -1), (0, -1), (-1, 0), (-1, +1), (0, +1) in
/// that order, where a free tile is a map tile that is neither mountains nor
/// ocean and on which no unit stands; it appears on the outpost's own tile
/// when no neighbour is free.
pub proof fn lemma_spawn_first_free_neighbor(
    tiles: Map<HexCoord, TerrainType>,
    occupied: Seq<HexCoord>,
    base: HexCoord,
)
    requires
        base.neighbors_computable(),
    ensures
        ({
            let dirs = seq![
                HexCoord { q: (base.q + 1) as i32, r: base.r },
                HexCoord { q: (base.q + 1) as i32, r: (base.r - 1) as i32 },
                HexCoord { q: base.q, r: (base.r - 1) as i32 },
                HexCoord { q: (base.q - 1) as i32, r: base.r },
                HexCoord { q: (base.q - 1) as i32, r: (base.r + 1) as i32 },
                HexCoord { q: base.q, r: (base.r + 1) as i32 },
            ];
            let free = |c: HexCoord|
                tiles.contains_key(c) && tiles[c] != TerrainType::Mountains && tiles[c]
                    != TerrainType::Ocean && !occupied.contains(c);
            &&& forall|i: int|
                0 <= i < 6 && #[trigger] free(dirs[i]) && (forall|j: int| 0 <= j < i ==> !free(dirs[j]))
                    ==> spawn_tile(tiles, occupied, base) == dirs[i]
            &&& (forall|i: int| 0 <= i < 6 ==> !free(#[trigger] dirs[i])) ==> spawn_tile(
                tiles,
                occupied,
                base,
            ) == base
        }),
{
    let dirs = seq![
        HexCoord { q: (base.q + 1) as i32, r: base.r },
        HexCoord { q: (base.q + 1) as i32, r: (base.r - 1) as i32 },
        HexCoord { q: base.q, r: (base.r - 1) as i32 },
        HexCoord { q: (base.q - 1) as i32, r: base.r },
        HexCoord { q: (base.q - 1) as i32, r: (base.r + 1) as i32 },
        HexCoord { q: base.q, r: (base.r + 1) as i32 },
    ];
    let free = |c: HexCoord|
        tiles.contains_key(c) && tiles[c] != TerrainType::Mountains && tiles[c] != TerrainType::Ocean
            && !occupied.contains(c);
    let ns = base.neighbor_seq();
    assert(ns =~= dirs);
    assert forall|c: HexCoord| free(c) == free_spawn_tile(tiles, occupied, c) by {}
    assert forall|i: int|
        0 <= i < 6 && #[trigger] free(dirs[i]) && (forall|j: int| 0 <= j < i ==> !free(dirs[j]))
            implies spawn_tile(tiles, occupied, base) == dirs[i] by {
        assert(free_spawn_tile(tiles, occupied, ns[i]));
        let w = choose|w: int|
            0 <= w < 6 && free_spawn_tile(tiles, occupied, #[trigger] ns[w]) && forall|j: int|
                0 <= j < w ==> !free_spawn_tile(tiles, occupied, #[trigger] ns[j]);
        assert(w == i) by {
            if w < i {
                assert(!free(dirs[w]));
                assert(!free_spawn_tile(tiles, occupied, ns[w]));
            }
            if w > i {
                assert(!free_spawn_tile(tiles, occupied, ns[i]));
            }
        }
    }
    if forall|i: int| 0 <= i < 6 ==> !free(#[trigger] dirs[i]) {
        assert forall|i: int| 0 <= i < 6 implies !free_spawn_tile(tiles, occupied, #[trigger] ns[i]) by {
            assert(!free(dirs[i]));
        }
    }
}

} // verus!
