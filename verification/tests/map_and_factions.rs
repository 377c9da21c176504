use alien_com::city::{
    city_button_action, city_header, city_notice, city_rank, income_line, upgrade_label, find_spawn_tile, produce_unit, toggle_city_modal, try_upgrade_outpost,
    unit_costs, CityActionOutcome, CityButtonAction, CityModalEffect, CityModalState, CombatGroupType,
    InsufficientResources,
};
use alien_com::coord_map::CoordMap;
use alien_com::diplomacy::{diplomacy_action, DiplomacyButtonAction, DiplomacyModalState, DiplomacyOutcome};
use alien_com::faction::{faction_by_index, DiplomaticRelation, FactionId, FactionManager, PlayerFaction};
use alien_com::hex::HexCoord;
use alien_com::info_panel::{outpost_line, owner_line, passability_line};
use alien_com::map_grid::MapGrid;
use alien_com::map_settings::{MapConfig, MapSize, PlanetEnvironment};
use alien_com::resources::FactionResources;
use alien_com::terrain::TerrainType;
use alien_com::territory::{first_outpost_name_of, FactionOutpost, TerritoryMap};

fn grid_with(tiles: &[(i32, i32, TerrainType)]) -> MapGrid {
    let mut grid = MapGrid::new();
    for &(q, r, t) in tiles {
        grid.terrain_data.insert(HexCoord::new(q, r), t);
    }
    grid
}

#[test]
fn hex_distance_examples() {
    let a = HexCoord::new(0, 0);
    assert_eq!(a.distance(HexCoord::new(0, 0)), 0);
    assert_eq!(a.distance(HexCoord::new(3, 0)), 3);
    assert_eq!(a.distance(HexCoord::new(2, -1)), 2);
    assert_eq!(a.distance(HexCoord::new(-2, 3)), 3);
    assert_eq!(HexCoord::new(1, 2).distance(HexCoord::new(4, -3)), 5);
    assert_eq!(HexCoord::new(4, -3).distance(HexCoord::new(1, 2)), 5);
}

#[test]
fn hex_cube_coordinate() {
    assert_eq!(HexCoord::new(2, 3).s(), -5);
    assert_eq!(HexCoord::new(-4, 1).s(), 3);
}

#[test]
fn hex_neighbors_in_direction_order() {
    let n = HexCoord::new(2, 5).neighbors();
    assert_eq!(
        n,
        [
            HexCoord::new(3, 5),
            HexCoord::new(3, 4),
            HexCoord::new(2, 4),
            HexCoord::new(1, 5),
            HexCoord::new(1, 6),
            HexCoord::new(2, 6),
        ]
    );
    for c in n.iter() {
        assert_eq!(HexCoord::new(2, 5).distance(*c), 1);
    }
}

#[test]
fn faction_names_and_codes() {
    assert_eq!(FactionId::Empire.code(), "A");
    assert_eq!(FactionId::Union.code(), "F");
    assert_eq!(FactionId::Empire.index(), 0);
    assert_eq!(FactionId::Union.index(), 5);
    assert_eq!(faction_by_index(3), FactionId::Republic);
    assert_eq!(PlayerFaction::default().0, FactionId::Empire);
    for i in 0..6usize {
        assert_eq!(faction_by_index(i).index(), i);
    }
}

#[test]
fn relation_symbols() {
    assert_eq!(DiplomaticRelation::Friendly.symbol(), "◎");
    assert_eq!(DiplomaticRelation::Normal.symbol(), "◯");
    assert_eq!(DiplomaticRelation::Cautious.symbol(), "△");
    assert_eq!(DiplomaticRelation::Hostile.symbol(), "✕");
}

#[test]
fn initial_scores_and_symmetry() {
    let mgr = FactionManager::new();
    assert_eq!(mgr.get_relation_score(FactionId::Empire, FactionId::Republic), 60);
    assert_eq!(mgr.get_relation_score(FactionId::Republic, FactionId::Empire), 60);
    assert_eq!(mgr.get_relation_score(FactionId::Empire, FactionId::Union), -30);
    assert_eq!(mgr.get_relation_score(FactionId::Federation, FactionId::Commonwealth), 0);
    assert_eq!(mgr.get_relation_score(FactionId::Federation, FactionId::Federation), 100);
    assert_eq!(
        mgr.relation_between(FactionId::Commonwealth, FactionId::Union),
        DiplomaticRelation::Normal
    );
    assert_eq!(mgr.relation_between(FactionId::Union, FactionId::Union), DiplomaticRelation::Friendly);
    for i in 0..6usize {
        assert_eq!(mgr.territory_count(faction_by_index(i)), 0);
        for j in 0..6usize {
            let a = faction_by_index(i);
            let b = faction_by_index(j);
            assert_eq!(mgr.get_relation_score(a, b), mgr.get_relation_score(b, a));
        }
    }
}

#[test]
fn scores_are_clamped() {
    let mut mgr = FactionManager::new();
    mgr.set_relation_score(FactionId::Empire, FactionId::Federation, 500);
    assert_eq!(mgr.get_relation_score(FactionId::Federation, FactionId::Empire), 100);
    mgr.modify_relation(FactionId::Empire, FactionId::Federation, -1000);
    assert_eq!(mgr.get_relation_score(FactionId::Empire, FactionId::Federation), -100);
    assert_eq!(
        mgr.relation_between(FactionId::Empire, FactionId::Federation),
        DiplomaticRelation::Hostile
    );
    mgr.set_relation_score(FactionId::Empire, FactionId::Empire, -50);
    assert_eq!(mgr.get_relation_score(FactionId::Empire, FactionId::Empire), 100);
}

#[test]
fn relation_thresholds() {
    let mut mgr = FactionManager::new();
    let (a, b) = (FactionId::Federation, FactionId::Republic);
    mgr.set_relation_score(a, b, 40);
    assert_eq!(mgr.relation_between(a, b), DiplomaticRelation::Friendly);
    mgr.set_relation_score(a, b, 39);
    assert_eq!(mgr.relation_between(a, b), DiplomaticRelation::Normal);
    mgr.set_relation_score(a, b, -15);
    assert_eq!(mgr.relation_between(a, b), DiplomaticRelation::Normal);
    mgr.set_relation_score(a, b, -16);
    assert_eq!(mgr.relation_between(a, b), DiplomaticRelation::Cautious);
    mgr.set_relation_score(a, b, -60);
    assert_eq!(mgr.relation_between(a, b), DiplomaticRelation::Cautious);
    mgr.set_relation_score(a, b, -61);
    assert_eq!(mgr.relation_between(a, b), DiplomaticRelation::Hostile);
}

#[test]
fn modify_then_undo_restores_score() {
    let mut mgr = FactionManager::new();
    let before = mgr.get_relation_score(FactionId::GrandDuchy, FactionId::Republic);
    mgr.modify_relation(FactionId::GrandDuchy, FactionId::Republic, 25);
    mgr.modify_relation(FactionId::Republic, FactionId::GrandDuchy, -25);
    assert_eq!(mgr.get_relation_score(FactionId::GrandDuchy, FactionId::Republic), before);
}

#[test]
fn territory_counts() {
    let mut mgr = FactionManager::new();
    mgr.set_territory_count(FactionId::Republic, 7);
    assert_eq!(mgr.territory_count(FactionId::Republic), 7);
    assert_eq!(mgr.territory_count(FactionId::Empire), 0);
}

#[test]
fn coord_map_insert_and_read_back() {
    let mut m: CoordMap<u32> = CoordMap::new();
    assert!(m.is_empty());
    m.insert(HexCoord::new(1, 1), 5);
    m.insert(HexCoord::new(2, 1), 6);
    m.insert(HexCoord::new(1, 1), 7);
    assert_eq!(m.len(), 2);
    assert_eq!(m.get(HexCoord::new(1, 1)), Some(7));
    assert_eq!(m.get(HexCoord::new(2, 1)), Some(6));
    assert_eq!(m.get(HexCoord::new(0, 0)), None);
    assert!(m.contains_key(HexCoord::new(2, 1)));
    let mut all = m.to_vec();
    all.sort_by_key(|(c, _)| (c.q, c.r));
    assert_eq!(all, vec![(HexCoord::new(1, 1), 7), (HexCoord::new(2, 1), 6)]);
    m.clear();
    assert!(m.is_empty());
    assert_eq!(m.len(), 0);
}

#[test]
fn map_grid_lookup() {
    let mut grid = grid_with(&[(0, 0, TerrainType::Plains), (1, 0, TerrainType::Ocean)]);
    assert!(grid.has_tile(HexCoord::new(1, 0)));
    assert!(!grid.has_tile(HexCoord::new(5, 5)));
    assert_eq!(grid.terrain_at(HexCoord::new(1, 0)), Some(TerrainType::Ocean));
    assert_eq!(grid.terrain_at(HexCoord::new(5, 5)), None);
    grid.clear();
    assert!(!grid.has_tile(HexCoord::new(0, 0)));
}

#[test]
fn terrain_passability_and_names() {
    assert!(TerrainType::Plains.is_passable_ground());
    assert!(TerrainType::Hills.is_passable_ground());
    assert!(TerrainType::CrystalFields.is_passable_ground());
    assert!(!TerrainType::Mountains.is_passable_ground());
    assert!(!TerrainType::Ocean.is_passable_ground());
    assert_eq!(TerrainType::Ocean.name(), "海洋 (Ocean)");
}

#[test]
fn map_sizes_and_default_config() {
    assert_eq!(MapSize::Small.dimensions(), (20, 12));
    assert_eq!(MapSize::Standard.width(), 28);
    assert_eq!(MapSize::Large.height(), 20);
    assert_eq!(MapSize::Large.name_ja(), "大型 (Large: 36x20)");
    let c = MapConfig::default();
    assert_eq!(c.size, MapSize::Standard);
    assert_eq!(c.environment, PlanetEnvironment::Terra);
    assert_eq!(c.seed, 1337);
    assert_eq!(c.width(), 28);
    assert_eq!(c.height(), 16);
    assert_eq!(PlanetEnvironment::Arid.name_ja(), "乾燥砂漠 (Arid Dunes)");
    assert_eq!(PlanetEnvironment::ALL.len(), 5);
    assert_eq!(MapSize::ALL.len(), 3);
}

#[test]
fn outpost_claims_center_and_map_neighbors() {
    let grid = grid_with(&[
        (0, 0, TerrainType::Plains),
        (1, 0, TerrainType::Ocean),
        (0, -1, TerrainType::Hills),
        (5, 5, TerrainType::Plains),
    ]);
    let mut map = TerritoryMap::new();
    let claimed = map.claim_outpost_territory(&grid, HexCoord::new(0, 0), FactionId::Republic);
    assert_eq!(claimed, 3);
    assert_eq!(map.get_owner(&HexCoord::new(0, 0)), Some(FactionId::Republic));
    assert_eq!(map.get_owner(&HexCoord::new(1, 0)), Some(FactionId::Republic));
    assert_eq!(map.get_owner(&HexCoord::new(0, -1)), Some(FactionId::Republic));
    assert_eq!(map.get_owner(&HexCoord::new(-1, 0)), None);
    assert_eq!(map.get_owner(&HexCoord::new(5, 5)), None);

    let again = map.claim_outpost_territory(&grid, HexCoord::new(1, 0), FactionId::Union);
    assert_eq!(again, 2);
    assert_eq!(map.get_owner(&HexCoord::new(0, 0)), Some(FactionId::Union));
    assert_eq!(map.get_owner(&HexCoord::new(0, -1)), Some(FactionId::Republic));
    map.clear();
    assert_eq!(map.get_owner(&HexCoord::new(0, 0)), None);
}

#[test]
fn initial_territories_found_outposts() {
    let grid = grid_with(&[
        (0, 0, TerrainType::Plains),
        (1, 0, TerrainType::Plains),
        (10, 10, TerrainType::Forest),
    ]);
    let mut map = TerritoryMap::new();
    let mut mgr = FactionManager::new();
    let sites = vec![(FactionId::Empire, HexCoord::new(0, 0)), (FactionId::Union, HexCoord::new(10, 10))];
    let outposts = map.setup_initial_territories(&mut mgr, &grid, &sites);
    assert_eq!(outposts.len(), 2);
    assert_eq!(outposts[0].faction, FactionId::Empire);
    assert_eq!(outposts[0].coord, HexCoord::new(0, 0));
    assert_eq!(outposts[0].level, 1);
    assert_eq!(outposts[0].name, first_outpost_name_of(FactionId::Empire));
    assert_eq!(outposts[1].name, "アヴァロン統合司令部");
    assert_eq!(mgr.territory_count(FactionId::Empire), 2);
    assert_eq!(mgr.territory_count(FactionId::Union), 1);
    assert_eq!(map.get_owner(&HexCoord::new(1, 0)), Some(FactionId::Empire));

    let again = map.setup_initial_territories(&mut mgr, &grid, &sites);
    assert!(again.is_empty());
}

#[test]
fn initial_territories_skip_empty_map() {
    let grid = MapGrid::new();
    let mut map = TerritoryMap::new();
    let mut mgr = FactionManager::new();
    let sites = vec![(FactionId::Empire, HexCoord::new(0, 0))];
    assert!(map.setup_initial_territories(&mut mgr, &grid, &sites).is_empty());
    assert_eq!(map.get_owner(&HexCoord::new(0, 0)), None);
}

#[test]
fn resources_start_and_advance() {
    let mut r = FactionResources::default();
    assert_eq!(r, FactionResources::new());
    assert_eq!((r.turn, r.energy, r.production, r.science, r.food), (1, 120, 50, 30, 80));
    r.advance_turn();
    assert_eq!((r.turn, r.energy, r.production, r.science, r.food), (2, 135, 62, 38, 90));
    r.advance_turns(3);
    assert_eq!((r.turn, r.energy, r.production, r.science, r.food), (5, 180, 98, 62, 120));
    r.advance_turns(0);
    assert_eq!(r.turn, 5);
}

#[test]
fn unit_cost_table() {
    assert_eq!(unit_costs(CombatGroupType::Scout), (30, 15, 0));
    assert_eq!(unit_costs(CombatGroupType::LightInfantry), (45, 25, 0));
    assert_eq!(unit_costs(CombatGroupType::Colonist), (75, 0, 40));
}

#[test]
fn produce_unit_pays_and_places() {
    let grid = grid_with(&[
        (0, 0, TerrainType::Plains),
        (1, 0, TerrainType::Ocean),
        (1, -1, TerrainType::Plains),
        (0, -1, TerrainType::Plains),
    ]);
    let mut r = FactionResources::new();
    let occupied = vec![HexCoord::new(1, -1)];
    let spot = produce_unit(&mut r, &grid, &occupied, HexCoord::new(0, 0), CombatGroupType::Scout);
    assert_eq!(spot, Ok(HexCoord::new(0, -1)));
    assert_eq!((r.production, r.energy, r.food), (20, 105, 80));

    let short = produce_unit(&mut r, &grid, &occupied, HexCoord::new(0, 0), CombatGroupType::Colonist);
    assert_eq!(short, Err(InsufficientResources { production: 75, energy: 0, food: 40 }));
    assert_eq!((r.production, r.energy, r.food), (20, 105, 80));
}

#[test]
fn spawn_falls_back_to_base() {
    let grid = grid_with(&[(0, 0, TerrainType::Plains), (1, 0, TerrainType::Mountains)]);
    assert_eq!(find_spawn_tile(&grid, &vec![], HexCoord::new(0, 0)), HexCoord::new(0, 0));
}

#[test]
fn outpost_upgrade() {
    let mut r = FactionResources::new();
    let mut o = FactionOutpost {
        faction: FactionId::Empire,
        name: String::from("base"),
        coord: HexCoord::new(0, 0),
        level: 1,
    };
    r.production = 60;
    r.energy = 40;
    assert!(try_upgrade_outpost(&mut r, &mut o));
    assert_eq!(o.level, 2);
    assert_eq!((r.production, r.energy), (0, 0));
    assert_eq!((r.production_per_turn, r.energy_per_turn), (15, 18));
    assert!(!try_upgrade_outpost(&mut r, &mut o));
    assert_eq!(o.level, 2);
}

#[test]
fn city_modal_opens_on_player_outpost() {
    let outposts = vec![
        (FactionId::Union, HexCoord::new(3, 3)),
        (FactionId::Empire, HexCoord::new(0, 0)),
        (FactionId::Empire, HexCoord::new(4, 4)),
    ];
    let mut s = CityModalState::default();
    let e = toggle_city_modal(&mut s, true, false, Some(HexCoord::new(4, 4)), FactionId::Empire, &outposts);
    assert_eq!(e, CityModalEffect::Open(2));
    assert!(s.is_open);
    let e = toggle_city_modal(&mut s, false, true, None, FactionId::Empire, &outposts);
    assert_eq!(e, CityModalEffect::Close);
    assert!(!s.is_open);
    let e = toggle_city_modal(&mut s, true, false, Some(HexCoord::new(3, 3)), FactionId::Empire, &outposts);
    assert_eq!(e, CityModalEffect::Open(1));
    let e = toggle_city_modal(&mut s, true, false, None, FactionId::Empire, &outposts);
    assert_eq!(e, CityModalEffect::Close);
    let e = toggle_city_modal(&mut s, true, false, None, FactionId::Federation, &outposts);
    assert_eq!(e, CityModalEffect::Nothing);
    assert!(!s.is_open);
}

#[test]
fn diplomacy_gift_and_pact() {
    let mut mgr = FactionManager::new();
    let mut s = DiplomacyModalState::default();
    assert!(s.toggle(FactionId::Empire));
    assert_eq!(s.selected_target, Some(FactionId::GrandDuchy));

    let out = diplomacy_action(DiplomacyButtonAction::SelectFaction(FactionId::Union), &mut s, FactionId::Empire, &mut mgr);
    assert_eq!(out, DiplomacyOutcome::Selected(FactionId::Union));

    let out = diplomacy_action(DiplomacyButtonAction::ProposeNonAggression, &mut s, FactionId::Empire, &mut mgr);
    assert_eq!(out, DiplomacyOutcome::PactDeferred(FactionId::Union));

    let out = diplomacy_action(DiplomacyButtonAction::SendGift, &mut s, FactionId::Empire, &mut mgr);
    assert_eq!(out, DiplomacyOutcome::GiftSent(FactionId::Union));
    assert_eq!(mgr.get_relation_score(FactionId::Empire, FactionId::Union), -15);

    for _ in 0..3 {
        diplomacy_action(DiplomacyButtonAction::SendGift, &mut s, FactionId::Empire, &mut mgr);
    }
    assert_eq!(mgr.get_relation_score(FactionId::Empire, FactionId::Union), 30);
    let out = diplomacy_action(DiplomacyButtonAction::ProposeNonAggression, &mut s, FactionId::Empire, &mut mgr);
    assert_eq!(out, DiplomacyOutcome::PactAccepted(FactionId::Union));

    let out = diplomacy_action(DiplomacyButtonAction::SelectFaction(FactionId::Empire), &mut s, FactionId::Empire, &mut mgr);
    assert_eq!(out, DiplomacyOutcome::Selected(FactionId::Empire));
    let out = diplomacy_action(DiplomacyButtonAction::SendGift, &mut s, FactionId::Empire, &mut mgr);
    assert_eq!(out, DiplomacyOutcome::GiftToSelfRefused);

    let out = diplomacy_action(DiplomacyButtonAction::Close, &mut s, FactionId::Empire, &mut mgr);
    assert_eq!(out, DiplomacyOutcome::Closed);
    assert!(!s.is_open);
}

#[test]
fn diplomacy_gift_clamps_at_hundred() {
    let mut mgr = FactionManager::new();
    let mut s = DiplomacyModalState::default();
    s.toggle(FactionId::Union);
    assert_eq!(s.selected_target, Some(FactionId::Empire));
    mgr.set_relation_score(FactionId::Union, FactionId::Empire, 95);
    diplomacy_action(DiplomacyButtonAction::SendGift, &mut s, FactionId::Union, &mut mgr);
    assert_eq!(mgr.get_relation_score(FactionId::Empire, FactionId::Union), 100);
}

fn outpost(f: FactionId, q: i32, r: i32) -> FactionOutpost {
    FactionOutpost { faction: f, name: String::from(first_outpost_name_of(f)), coord: HexCoord::new(q, r), level: 1 }
}

#[test]
fn city_buttons() {
    let grid = grid_with(&[(0, 0, TerrainType::Plains), (1, 0, TerrainType::Forest)]);
    let mut outposts = vec![outpost(FactionId::Union, 5, 5), outpost(FactionId::Empire, 0, 0)];
    let mut modal = CityModalState { is_open: true, target_outpost: Some(1) };
    let mut r = FactionResources::new();

    let out = city_button_action(CityButtonAction::ProduceUnit(CombatGroupType::LightInfantry), &mut modal, &mut r, &mut outposts, &grid, &vec![]);
    assert_eq!(out, CityActionOutcome::Produced(CombatGroupType::LightInfantry, HexCoord::new(1, 0)));
    assert_eq!((r.production, r.energy, r.food), (5, 95, 80));

    let out = city_button_action(CityButtonAction::ProduceUnit(CombatGroupType::Scout), &mut modal, &mut r, &mut outposts, &grid, &vec![]);
    assert_eq!(out, CityActionOutcome::ProductionRefused(InsufficientResources { production: 30, energy: 15, food: 0 }));
    assert_eq!(
        city_notice(out),
        Some(String::from("❌ 資源が不足しています（必要: 生産 30 / エネルギー 15 / 食糧 0）"))
    );

    let out = city_button_action(CityButtonAction::UpgradeCity, &mut modal, &mut r, &mut outposts, &grid, &vec![]);
    assert_eq!(out, CityActionOutcome::UpgradeRefused);
    assert_eq!(city_notice(out), Some(String::from("❌ 資源が不足しています（必要: 生産 60 / エネルギー 40）")));
    r.production = 100;
    let out = city_button_action(CityButtonAction::UpgradeCity, &mut modal, &mut r, &mut outposts, &grid, &vec![]);
    assert_eq!(out, CityActionOutcome::Upgraded(2));
    assert_eq!(outposts[1].level, 2);
    assert_eq!(outposts[0].level, 1);
    assert_eq!(outposts[1].name, "ニュー・ソフィア第一司令基地");
    assert_eq!((r.production, r.energy, r.production_per_turn, r.energy_per_turn), (40, 55, 15, 18));
    assert_eq!(
        city_notice(out),
        Some(String::from("✔ 基地拡張完了！ Lv.2 に昇格しました。（生産/エネルギー +3/ターン）"))
    );

    let out = city_button_action(CityButtonAction::Close, &mut modal, &mut r, &mut outposts, &grid, &vec![]);
    assert_eq!(out, CityActionOutcome::Closed);
    assert!(!modal.is_open);
    assert_eq!(city_notice(out), None);
}

#[test]
fn city_buttons_without_outpost() {
    let grid = grid_with(&[(0, 0, TerrainType::Plains)]);
    let mut outposts = vec![outpost(FactionId::Empire, 0, 0)];
    let mut modal = CityModalState { is_open: true, target_outpost: None };
    let mut r = FactionResources::new();
    let out = city_button_action(CityButtonAction::UpgradeCity, &mut modal, &mut r, &mut outposts, &grid, &vec![]);
    assert_eq!(out, CityActionOutcome::NoOutpost);
    let out = city_button_action(CityButtonAction::ProduceUnit(CombatGroupType::Scout), &mut modal, &mut r, &mut outposts, &grid, &vec![]);
    assert_eq!(out, CityActionOutcome::NoOutpost);
    assert_eq!(r, FactionResources::new());
    modal.target_outpost = Some(7);
    let out = city_button_action(CityButtonAction::UpgradeCity, &mut modal, &mut r, &mut outposts, &grid, &vec![]);
    assert_eq!(out, CityActionOutcome::NoOutpost);
}

#[test]
fn tile_panel_lines() {
    assert_eq!(owner_line(Some(FactionId::Republic)), "国D【共和国】(アシリア人民統一共和国)");
    assert_eq!(owner_line(None), "未領有・未開拓域 (Neutral Territory)");
    assert_eq!(passability_line(TerrainType::Hills), "通行可能");
    assert_eq!(passability_line(TerrainType::Ocean), "通行不能 (特殊部隊/航空機のみ)");
    let outposts = vec![outpost(FactionId::Union, 2, 2), outpost(FactionId::Empire, 2, 2)];
    assert_eq!(
        outpost_line(&outposts, HexCoord::new(2, 2), Some(FactionId::Union)),
        "\n\n【都市・前哨基地】\n  アヴァロン統合司令部 (Lv.1)\n  ※[C]キーで都市管理・部隊生産画面を開く"
    );
    assert_eq!(
        outpost_line(&outposts, HexCoord::new(2, 2), Some(FactionId::Empire)),
        "\n\n【都市・前哨基地】\n  アヴァロン統合司令部 (Lv.1)"
    );
    assert_eq!(outpost_line(&outposts, HexCoord::new(0, 0), None), "");
}

#[test]
fn diplomacy_without_target_does_nothing() {
    let mut mgr = FactionManager::new();
    let mut s = DiplomacyModalState::default();
    let before = mgr.get_relation_score(FactionId::Empire, FactionId::GrandDuchy);
    let out = diplomacy_action(DiplomacyButtonAction::SendGift, &mut s, FactionId::Empire, &mut mgr);
    assert_eq!(out, DiplomacyOutcome::Nothing);
    let out = diplomacy_action(DiplomacyButtonAction::ProposeNonAggression, &mut s, FactionId::Empire, &mut mgr);
    assert_eq!(out, DiplomacyOutcome::Nothing);
    assert_eq!(mgr.get_relation_score(FactionId::Empire, FactionId::GrandDuchy), before);
    assert!(s.toggle(FactionId::Empire));
    assert!(!s.toggle(FactionId::Empire));
    assert_eq!(s.selected_target, Some(FactionId::GrandDuchy));
}

#[test]
fn score_with_itself_is_hundred() {
    let mut mgr = FactionManager::new();
    mgr.modify_relation(FactionId::Republic, FactionId::Republic, -300);
    for i in 0..6usize {
        let f = faction_by_index(i);
        assert_eq!(mgr.get_relation_score(f, f), 100);
        assert_eq!(mgr.relation_between(f, f), DiplomaticRelation::Friendly);
    }
}

#[test]
fn city_window_texts() {
    let mut o = outpost(FactionId::Federation, 0, 0);
    o.level = 3;
    assert_eq!(city_header(&o), "⬢ フォート・リバティ主拠点 // 基地司令部");
    assert_eq!(city_rank(&o), "所属: 国C【連邦】  都市ランク: Lv.3  防衛値: 100/100");
    assert_eq!(income_line(15, 120), "+15 /ターン (備蓄: 120)");
    assert_eq!(income_line(-2, -7), "+-2 /ターン (備蓄: -7)");
    assert_eq!(upgrade_label(3), "基地モジュール改修 (Lv.3 → Lv.4)");
}
