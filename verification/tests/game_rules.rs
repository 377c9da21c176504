use alien_com::command::execute_command;
use alien_com::console::{DebugConsoleState, LogTone};
use alien_com::faction::{DiplomaticRelation, FactionId, FactionManager};
use alien_com::hex::HexCoord;
use alien_com::input::{evaluate_ingame_actions, InGameAction};
use alien_com::keys::{Key, KeyInput};
use alien_com::resources::FactionResources;
use alien_com::territory::TerritoryMap;

#[test]
fn test_territory_map_ownership() {
    let mut map = TerritoryMap::default();
    let coord = HexCoord::new(3, 4);

    assert_eq!(map.get_owner(&coord), None);
    assert!(!map.is_owned_by(&coord, FactionId::Empire));

    map.tile_owners.insert(coord, FactionId::Empire);
    assert_eq!(map.get_owner(&coord), Some(FactionId::Empire));
    assert!(map.is_owned_by(&coord, FactionId::Empire));
    assert!(!map.is_owned_by(&coord, FactionId::Federation));
}

#[test]
fn test_faction_default_diplomacy_matrix() {
    let mgr = FactionManager::default();

    assert_eq!(
        mgr.relation_between(FactionId::Empire, FactionId::GrandDuchy),
        DiplomaticRelation::Cautious
    );
    assert_eq!(
        mgr.relation_between(FactionId::Empire, FactionId::Republic),
        DiplomaticRelation::Friendly
    );
    assert_eq!(
        mgr.relation_between(FactionId::GrandDuchy, FactionId::Commonwealth),
        DiplomaticRelation::Friendly
    );
    assert_eq!(
        mgr.relation_between(FactionId::GrandDuchy, FactionId::Union),
        DiplomaticRelation::Friendly
    );
    assert_eq!(
        mgr.relation_between(FactionId::Republic, FactionId::Union),
        DiplomaticRelation::Cautious
    );
}

#[test]
fn test_relation_modification() {
    let mut mgr = FactionManager::default();
    let f1 = FactionId::Empire;
    let f2 = FactionId::Union;

    assert_eq!(mgr.relation_between(f1, f2), DiplomaticRelation::Cautious);

    mgr.modify_relation(f1, f2, 80);
    assert_eq!(mgr.relation_between(f1, f2), DiplomaticRelation::Friendly);

    mgr.modify_relation(f1, f2, -150);
    assert_eq!(mgr.relation_between(f1, f2), DiplomaticRelation::Hostile);
}

#[test]
fn test_space_key_priority() {
    let mut keys = KeyInput::new();
    keys.press(Key::Space);

    let actions = evaluate_ingame_actions(&keys, false, false, false, true, false);
    assert_eq!(actions, vec![InGameAction::UnitWait]);

    let actions = evaluate_ingame_actions(&keys, false, false, false, false, false);
    assert_eq!(actions, vec![InGameAction::EndTurn]);
}

#[test]
fn test_f_key_priority() {
    let mut keys = KeyInput::new();
    keys.press(Key::KeyF);

    let actions = evaluate_ingame_actions(&keys, false, false, false, true, false);
    assert_eq!(actions, vec![InGameAction::UnitFortify]);

    let actions = evaluate_ingame_actions(&keys, false, false, false, false, false);
    assert_eq!(actions, vec![InGameAction::ToggleDiplomacyModal]);
}

#[test]
fn test_escape_key_hierarchy() {
    let mut keys = KeyInput::new();
    keys.press(Key::Escape);

    let actions = evaluate_ingame_actions(&keys, false, true, false, false, false);
    assert_eq!(actions, vec![InGameAction::CancelOrDeselect]);

    let actions = evaluate_ingame_actions(&keys, false, false, false, true, false);
    assert_eq!(actions, vec![InGameAction::CancelOrDeselect]);

    let actions = evaluate_ingame_actions(&keys, false, false, false, false, true);
    assert_eq!(actions, vec![InGameAction::CancelOrDeselect]);

    let actions = evaluate_ingame_actions(&keys, false, false, false, false, false);
    assert_eq!(actions, vec![InGameAction::OpenPauseMenu]);
}

#[test]
fn test_debug_active_blocks_shortcuts() {
    let mut keys = KeyInput::new();
    keys.press(Key::Space);
    keys.press(Key::KeyM);
    keys.press(Key::KeyG);

    let actions = evaluate_ingame_actions(&keys, true, false, false, true, false);
    assert!(actions.is_empty());
}

#[test]
fn test_debug_console_state_logs() {
    let mut state = DebugConsoleState::default();
    let initial_count = state.logs.len();
    state.add_log(String::from("Test message"), LogTone::Plain);
    assert_eq!(state.logs.len(), initial_count + 1);
    assert_eq!(state.logs.last().unwrap().0, "Test message");
}

#[test]
fn test_debug_console_command_parsing() {
    let mut resources = FactionResources::default();
    let mut state = DebugConsoleState::default();
    execute_command("help", &mut state, &mut resources);
    assert!(state.logs.iter().any(|(msg, _)| msg.contains("AVAILABLE COMMANDS")));

    let initial_energy = resources.energy;
    execute_command("energy 500", &mut state, &mut resources);
    assert_eq!(resources.energy, initial_energy + 500);

    let initial_turn = resources.turn;
    execute_command("turn 3", &mut state, &mut resources);
    assert_eq!(resources.turn, initial_turn + 3);
}
