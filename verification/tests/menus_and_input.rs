use alien_com::app_state::AppState;
use alien_com::diplomacy::DiplomacyModalState;
use alien_com::faction::{FactionId, PlayerFaction};
use alien_com::faction_select::{detail_title, faction_select_action, seed_display, SelectAction, SelectedFactionMenu};
use alien_com::hud::{hud_button_action, hud_keyboard_shortcuts, hud_label_string, HudAction, HudLabel, MapDisplaySettings};
use alien_com::input::{evaluate_ingame_actions, InGameAction};
use alien_com::keys::{Key, KeyInput};
use alien_com::map_settings::{MapConfig, MapSize, PlanetEnvironment};
use alien_com::pause::{
    pause_button_action, pause_keyboard_navigation, PauseButtonAction, PauseMenuFocus, PauseMenuItem,
    PauseModalFocusItem, PauseModalType,
};
use alien_com::resources::FactionResources;
use alien_com::settings::{
    apply_graphics_preset, setting_value_string, AntiAliasingMode, FpsLimitMode, GameSettings, GpuKind,
    GraphicsEnvironment, SettingValueLabel,
};
use alien_com::settings_nav::{
    settings_button_action, settings_keyboard_navigation, ModalFocusItem, SettingsButtonAction,
    SettingsFocusItem, SettingsNavFocus,
};
use alien_com::title::{execute_title_action, title_keyboard_navigation, MenuButtonAction, TitleMenuFocus};

fn keys(ks: &[Key]) -> KeyInput {
    let mut k = KeyInput::new();
    for &key in ks {
        k.press(key);
    }
    k
}

fn strong_machine() -> GraphicsEnvironment {
    GraphicsEnvironment { memory_below_16gb: false, single_core: false, debug_build: false, gpu: Some(GpuKind::Discrete) }
}

fn defaults() -> GameSettings {
    GameSettings::default_for_environment(&strong_machine())
}

#[test]
fn key_input_frames() {
    let mut k = KeyInput::new();
    assert!(!k.pressed(Key::Space) && !k.just_pressed(Key::Space));
    k.press(Key::Space);
    assert!(k.pressed(Key::Space) && k.just_pressed(Key::Space));
    k.clear();
    assert!(k.pressed(Key::Space) && !k.just_pressed(Key::Space));
    k.press(Key::Space);
    assert!(!k.just_pressed(Key::Space));
}

#[test]
fn enter_ends_turn_and_shift_forces() {
    let a = evaluate_ingame_actions(&keys(&[Key::Enter]), false, false, false, false, false);
    assert_eq!(a, vec![InGameAction::EndTurn]);
    let mut k = keys(&[Key::ShiftLeft]);
    k.clear();
    k.press(Key::NumpadEnter);
    let a = evaluate_ingame_actions(&k, false, false, false, false, false);
    assert_eq!(a, vec![InGameAction::ForceEndTurn]);
}

#[test]
fn modal_takes_only_its_keys() {
    let k = keys(&[Key::Digit2, Key::KeyG, Key::KeyU, Key::KeyC]);
    let a = evaluate_ingame_actions(&k, false, true, false, false, false);
    assert_eq!(
        a,
        vec![InGameAction::CityUpgradeOutpost, InGameAction::CityProduceInfantry, InGameAction::ToggleCityModal]
    );
    let a = evaluate_ingame_actions(&keys(&[Key::KeyF, Key::KeyG]), false, false, true, false, false);
    assert_eq!(a, vec![InGameAction::ToggleDiplomacyModal]);
}

#[test]
fn unit_and_navigation_shortcuts() {
    let k = keys(&[Key::KeyM, Key::Delete, Key::Tab, Key::KeyG, Key::BracketRight]);
    let a = evaluate_ingame_actions(&k, false, false, false, true, false);
    assert_eq!(
        a,
        vec![
            InGameAction::UnitMove,
            InGameAction::UnitDisband,
            InGameAction::ToggleGrid,
            InGameAction::NextUnit,
            InGameAction::NextCity,
        ]
    );
    let mut k = keys(&[Key::ShiftRight]);
    k.clear();
    k.press(Key::Tab);
    k.press(Key::Home);
    let a = evaluate_ingame_actions(&k, false, false, false, false, false);
    assert_eq!(a, vec![InGameAction::PrevUnit, InGameAction::JumpToCapital]);
}

#[test]
fn map_display_toggles() {
    let mut d = MapDisplaySettings::default();
    assert!(d.show_grid && !d.show_yields);
    d.apply_actions(&vec![InGameAction::ToggleGrid, InGameAction::ToggleYields, InGameAction::EndTurn]);
    assert!(!d.show_grid && d.show_yields);
    d.apply_actions(&vec![InGameAction::ToggleGrid, InGameAction::ToggleGrid]);
    assert!(!d.show_grid && d.show_yields);
}

#[test]
fn hud_labels() {
    let r = FactionResources::new();
    assert_eq!(hud_label_string(HudLabel::Turn, &r), "TURN 01");
    assert_eq!(hud_label_string(HudLabel::Energy, &r), "120 (+15)");
    assert_eq!(hud_label_string(HudLabel::Food, &r), "80 (+10)");
    let mut r2 = r;
    r2.turn = 123;
    r2.science = -5;
    assert_eq!(hud_label_string(HudLabel::Turn, &r2), "TURN 123");
    assert_eq!(hud_label_string(HudLabel::Science, &r2), "-5 (+8)");
}

#[test]
fn hud_buttons_and_keys() {
    let mut r = FactionResources::new();
    let mut back = AppState::Title;
    let mut dip = DiplomacyModalState::default();
    let e = hud_button_action(HudAction::EndTurn, &mut r, &mut back, &mut dip, FactionId::Empire);
    assert_eq!(r.turn, 2);
    assert_eq!(e.next_state, None);
    let e = hud_button_action(HudAction::OpenDiplomacy, &mut r, &mut back, &mut dip, FactionId::Empire);
    assert!(e.show_diplomacy && dip.is_open);
    let e = hud_button_action(HudAction::OpenMenu, &mut r, &mut back, &mut dip, FactionId::Empire);
    assert_eq!(e.next_state, Some(AppState::PauseMenu));
    assert_eq!(back, AppState::InGame);

    let mut back = AppState::Title;
    let next = hud_keyboard_shortcuts(&keys(&[Key::Space]), &mut r, &mut back);
    assert_eq!((next, r.turn, back), (None, 3, AppState::Title));
    let next = hud_keyboard_shortcuts(&keys(&[Key::Escape]), &mut r, &mut back);
    assert_eq!((next, r.turn, back), (Some(AppState::PauseMenu), 3, AppState::InGame));
}

#[test]
fn title_menu() {
    let mut back = AppState::InGame;
    let e = execute_title_action(MenuButtonAction::Settings, &mut back);
    assert_eq!((e.next_state, e.exit_app, back), (Some(AppState::Settings), false, AppState::Title));
    let e = execute_title_action(MenuButtonAction::NewGame, &mut back);
    assert_eq!(e.next_state, Some(AppState::FactionSelect));
    let e = execute_title_action(MenuButtonAction::LoadGame, &mut back);
    assert_eq!((e.next_state, e.exit_app), (None, false));
    let e = execute_title_action(MenuButtonAction::Exit, &mut back);
    assert!(e.exit_app);

    let mut focus = TitleMenuFocus::default();
    assert_eq!(focus.selected_index, None);
    title_keyboard_navigation(&mut focus, &mut back, &keys(&[Key::ArrowUp]));
    assert_eq!(focus.selected_index, Some(3));
    title_keyboard_navigation(&mut focus, &mut back, &keys(&[Key::KeyS]));
    assert_eq!(focus.selected_index, Some(0));
    let e = title_keyboard_navigation(&mut focus, &mut back, &keys(&[Key::ArrowDown, Key::Enter]));
    assert_eq!(focus.selected_index, Some(1));
    assert_eq!(e.next_state, None);
    focus.hover(3);
    let e = title_keyboard_navigation(&mut focus, &mut back, &keys(&[Key::Space]));
    assert!(e.exit_app);
    focus.reset();
    assert_eq!(focus.selected_index, Some(0));
}

#[test]
fn pause_menu_keys() {
    let mut f = PauseMenuFocus::default();
    let mut back = AppState::Title;
    let e = pause_keyboard_navigation(&mut f, &mut back, &keys(&[Key::ArrowUp]));
    assert_eq!(f.current_item, PauseMenuItem::QuitToDesktop);
    assert_eq!(e.next_state, None);
    let e = pause_keyboard_navigation(&mut f, &mut back, &keys(&[Key::Enter]));
    assert_eq!(e.open_modal, Some(PauseModalType::QuitToDesktop));
    assert!(f.modal_open);
    assert_eq!(f.modal_focus, PauseModalFocusItem::Cancel);
    let e = pause_keyboard_navigation(&mut f, &mut back, &keys(&[Key::Enter]));
    assert!(e.close_modal && !e.exit_app && !f.modal_open);
    pause_keyboard_navigation(&mut f, &mut back, &keys(&[Key::Space]));
    pause_keyboard_navigation(&mut f, &mut back, &keys(&[Key::Tab]));
    assert_eq!(f.modal_focus, PauseModalFocusItem::Confirm);
    let e = pause_keyboard_navigation(&mut f, &mut back, &keys(&[Key::Enter]));
    assert!(e.exit_app && e.close_modal);

    let mut f = PauseMenuFocus::new();
    let e = pause_keyboard_navigation(&mut f, &mut back, &keys(&[Key::KeyS, Key::Space]));
    assert_eq!(f.current_item, PauseMenuItem::Settings);
    assert_eq!((e.next_state, back), (Some(AppState::Settings), AppState::PauseMenu));
    let e = pause_keyboard_navigation(&mut f, &mut back, &keys(&[Key::Escape]));
    assert_eq!(e.next_state, Some(AppState::InGame));
}

#[test]
fn pause_return_to_title_needs_confirmation() {
    let mut f = PauseMenuFocus::new();
    let mut back = AppState::InGame;
    let e = pause_button_action(PauseButtonAction::RequestReturnToTitle, &mut f, &mut back, false);
    assert_eq!(e.open_modal, Some(PauseModalType::ReturnToTitle));
    assert_eq!(e.next_state, None);
    let e = pause_button_action(PauseButtonAction::RequestReturnToTitle, &mut f, &mut back, true);
    assert_eq!(e.open_modal, None);
    let e = pause_button_action(PauseButtonAction::ConfirmModal, &mut f, &mut back, true);
    assert_eq!(e.next_state, Some(AppState::Title));
    assert_eq!(back, AppState::Title);
    assert!(!f.modal_open);
    let e = pause_button_action(PauseButtonAction::Resume, &mut f, &mut back, false);
    assert_eq!(e.next_state, Some(AppState::InGame));
    f.reset();
    assert_eq!(f, PauseMenuFocus::new());
}

#[test]
fn graphics_presets() {
    let d = defaults();
    assert_eq!((d.master_volume, d.bgm_volume, d.sfx_volume), (80, 70, 80));
    assert_eq!((d.fps_limit, d.anti_aliasing, d.shadows_enabled), (FpsLimitMode::Fps60, AntiAliasingMode::Msaa4x, true));
    let weak = GraphicsEnvironment { memory_below_16gb: true, ..strong_machine() };
    let w = GameSettings::default_for_environment(&weak);
    assert_eq!((w.fps_limit, w.anti_aliasing, w.shadows_enabled), (FpsLimitMode::Fps30, AntiAliasingMode::Off, false));
    let igpu = GraphicsEnvironment { gpu: Some(GpuKind::Integrated), ..strong_machine() };
    assert_eq!(GameSettings::default_for_environment(&igpu).anti_aliasing, AntiAliasingMode::Msaa2x);
    let cpu = GraphicsEnvironment { gpu: Some(GpuKind::Cpu), ..strong_machine() };
    assert_eq!(GameSettings::default_for_environment(&cpu).fps_limit, FpsLimitMode::Fps30);
    let unknown = GraphicsEnvironment { gpu: None, ..strong_machine() };
    assert_eq!(GameSettings::default_for_environment(&unknown).anti_aliasing, AntiAliasingMode::Msaa4x);

    let mut s = d;
    s.master_volume = 10;
    apply_graphics_preset(&mut s, &weak);
    assert_eq!(s.master_volume, 10);
    assert_eq!((s.fps_limit, s.anti_aliasing, s.shadows_enabled), (FpsLimitMode::Fps30, AntiAliasingMode::Off, false));
}

#[test]
fn fps_and_aa_cycles() {
    assert_eq!(FpsLimitMode::Fps144.next(), FpsLimitMode::Unlimited);
    assert_eq!(FpsLimitMode::Unlimited.prev(), FpsLimitMode::Fps144);
    assert_eq!(FpsLimitMode::Fps60.target_frame_time(), Some(16_666_666));
    assert_eq!(FpsLimitMode::Unlimited.target_frame_time(), None);
    assert_eq!(AntiAliasingMode::Msaa4x.next(), AntiAliasingMode::Off);
    assert_eq!(AntiAliasingMode::Off.prev(), AntiAliasingMode::Msaa4x);
    assert_eq!(AntiAliasingMode::Msaa2x.display_label(), "MSAA 2x");
}

#[test]
fn setting_labels() {
    let mut s = defaults();
    assert_eq!(setting_value_string(SettingValueLabel::MasterVolume, &s), "80%");
    assert_eq!(setting_value_string(SettingValueLabel::Resolution, &s), "1280x720");
    s.resolution_index = 3;
    assert_eq!(setting_value_string(SettingValueLabel::Resolution, &s), "2560x1440");
    assert_eq!(setting_value_string(SettingValueLabel::Fullscreen, &s), "ウィンドウ");
    assert_eq!(setting_value_string(SettingValueLabel::Vsync, &s), "有効 (ON)");
    s.shadows_enabled = false;
    assert_eq!(setting_value_string(SettingValueLabel::Shadows, &s), "無効 (OFF)");
    assert_eq!(setting_value_string(SettingValueLabel::FpsLimit, &s), "60 FPS");
    s.sfx_volume = 0;
    assert_eq!(setting_value_string(SettingValueLabel::SfxVolume, &s), "0%");
}

#[test]
fn settings_keyboard() {
    let d = defaults();
    let mut s = d;
    let mut f = SettingsNavFocus::default();
    settings_keyboard_navigation(&mut f, &mut s, false, &keys(&[Key::ArrowRight]), &d);
    assert_eq!(s.master_volume, 90);
    settings_keyboard_navigation(&mut f, &mut s, false, &keys(&[Key::KeyD]), &d);
    settings_keyboard_navigation(&mut f, &mut s, false, &keys(&[Key::KeyD]), &d);
    assert_eq!(s.master_volume, 100);
    settings_keyboard_navigation(&mut f, &mut s, false, &keys(&[Key::ArrowUp]), &d);
    assert_eq!(f.current_item, SettingsFocusItem::Back);
    let e = settings_keyboard_navigation(&mut f, &mut s, false, &keys(&[Key::Enter]), &d);
    assert_eq!(e.next_state, Some(AppState::Title));
    settings_keyboard_navigation(&mut f, &mut s, false, &keys(&[Key::ArrowDown]), &d);
    assert_eq!(f.current_item, SettingsFocusItem::MasterVolume);
    for _ in 0..3 {
        settings_keyboard_navigation(&mut f, &mut s, false, &keys(&[Key::KeyS]), &d);
    }
    assert_eq!(f.current_item, SettingsFocusItem::Resolution);
    settings_keyboard_navigation(&mut f, &mut s, false, &keys(&[Key::ArrowLeft]), &d);
    assert_eq!(s.resolution_index, 3);
    settings_keyboard_navigation(&mut f, &mut s, false, &keys(&[Key::Space]), &d);
    assert_eq!(s.resolution_index, 0);
    let e = settings_keyboard_navigation(&mut f, &mut s, false, &keys(&[Key::Escape]), &d);
    assert_eq!(e.next_state, Some(AppState::Title));
}

#[test]
fn settings_in_game_return_to_title() {
    let d = defaults();
    let mut s = GameSettings { return_state: AppState::InGame, ..d };
    let mut f = SettingsNavFocus::new();
    settings_keyboard_navigation(&mut f, &mut s, false, &keys(&[Key::ArrowUp]), &d);
    assert_eq!(f.current_item, SettingsFocusItem::ReturnToTitle);
    settings_keyboard_navigation(&mut f, &mut s, false, &keys(&[Key::ArrowLeft]), &d);
    assert_eq!(f.current_item, SettingsFocusItem::Resume);
    settings_keyboard_navigation(&mut f, &mut s, false, &keys(&[Key::ArrowRight]), &d);
    assert_eq!(f.current_item, SettingsFocusItem::ReturnToTitle);
    let e = settings_keyboard_navigation(&mut f, &mut s, false, &keys(&[Key::Enter]), &d);
    assert!(e.open_return_modal);
    assert_eq!(f.modal_item, ModalFocusItem::Cancel);
    let e = settings_keyboard_navigation(&mut f, &mut s, true, &keys(&[Key::Enter]), &d);
    assert!(e.close_return_modal);
    assert_eq!(e.next_state, None);
    settings_keyboard_navigation(&mut f, &mut s, true, &keys(&[Key::KeyA]), &d);
    assert_eq!(f.modal_item, ModalFocusItem::Confirm);
    let e = settings_keyboard_navigation(&mut f, &mut s, true, &keys(&[Key::Space]), &d);
    assert_eq!(e.next_state, Some(AppState::Title));
    assert_eq!(s.return_state, AppState::Title);
}

#[test]
fn settings_buttons() {
    let d = defaults();
    let mut s = d;
    settings_button_action(SettingsButtonAction::BgmVolumeDown, &mut s, false, &d);
    assert_eq!(s.bgm_volume, 60);
    settings_button_action(SettingsButtonAction::BgmVolumeUp, &mut s, false, &d);
    assert_eq!(s.bgm_volume, 70);
    settings_button_action(SettingsButtonAction::ToggleFullscreen, &mut s, false, &d);
    assert!(s.fullscreen);
    settings_button_action(SettingsButtonAction::FpsLimitNext, &mut s, false, &d);
    assert_eq!(s.fps_limit, FpsLimitMode::Fps120);
    let e = settings_button_action(SettingsButtonAction::ResetDefaults, &mut s, false, &d);
    assert!(e.force_windowed);
    assert_eq!(s, d);
    let e = settings_button_action(SettingsButtonAction::RequestReturnToTitle, &mut s, true, &d);
    assert!(!e.open_return_modal);
    let e = settings_button_action(SettingsButtonAction::Back, &mut s, false, &d);
    assert_eq!(e.next_state, Some(AppState::Title));
}

#[test]
fn faction_selection() {
    let mut menu = SelectedFactionMenu::default();
    let mut player = PlayerFaction::default();
    let mut config = MapConfig::default();
    faction_select_action(SelectAction::Choose(FactionId::Commonwealth), &mut menu, &mut player, &mut config);
    assert_eq!(menu.faction, FactionId::Commonwealth);
    assert_eq!(player.0, FactionId::Empire);
    faction_select_action(SelectAction::ChooseSize(MapSize::Large), &mut menu, &mut player, &mut config);
    faction_select_action(
        SelectAction::ChooseEnvironment(PlanetEnvironment::Archipelago),
        &mut menu,
        &mut player,
        &mut config,
    );
    assert_eq!((config.size, config.environment), (MapSize::Large, PlanetEnvironment::Archipelago));
    let e = faction_select_action(SelectAction::RerollSeed, &mut menu, &mut player, &mut config);
    assert!(e.reroll_seed);
    let e = faction_select_action(SelectAction::Confirm, &mut menu, &mut player, &mut config);
    assert_eq!(player.0, FactionId::Commonwealth);
    assert_eq!(e.next_state, Some(AppState::InGame));
    let e = faction_select_action(SelectAction::Back, &mut menu, &mut player, &mut config);
    assert_eq!(e.next_state, Some(AppState::Title));
}

#[test]
fn faction_select_texts() {
    assert_eq!(detail_title(FactionId::Union), "バシレス統合覇権連合 (連合)");
    assert_eq!(seed_display(1337), "🎲 SEED: 1337");
    assert_eq!(seed_display(0), "🎲 SEED: 0");
}

#[test]
fn settings_focus_down_then_up_returns() {
    let d = defaults();
    for back in [AppState::Title, AppState::InGame] {
        let mut s = GameSettings { return_state: back, ..d };
        let mut f = SettingsNavFocus::new();
        for _ in 0..13 {
            let start = f.current_item;
            settings_keyboard_navigation(&mut f, &mut s, false, &keys(&[Key::ArrowDown]), &d);
            settings_keyboard_navigation(&mut f, &mut s, false, &keys(&[Key::ArrowUp]), &d);
            assert_eq!(f.current_item, start);
            settings_keyboard_navigation(&mut f, &mut s, false, &keys(&[Key::ArrowDown]), &d);
        }
    }
}
