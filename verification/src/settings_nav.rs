use vstd::prelude::*;
use crate::app_state::AppState;
use crate::keys::{Key, KeyInput};
use crate::settings::{
    aa_next, aa_prev, apply_defaults, fps_next, fps_prev, resolution_next, resolution_next_exec,
    resolution_prev, resolution_prev_exec, volume_down, volume_down_exec, volume_up, volume_up_exec,
    with_defaults, GameSettings,
};

verus! {

/// Rows of the settings screen that keyboard focus can rest on.
#[derive(Debug, Clone, Copy, PartialEq, Eq, Hash, Structural)]
pub enum SettingsFocusItem {
    MasterVolume,
    BgmVolume,
    SfxVolume,
    Resolution,
    Fullscreen,
    FpsLimit,
    Vsync,
    Shadows,
    AntiAliasing,
    ResetDefaults,
    Resume,
    ReturnToTitle,
    Back,
}

/// Buttons of the "return to title" confirmation window.
#[derive(Debug, Clone, Copy, PartialEq, Eq, Hash, Structural)]
pub enum ModalFocusItem {
    Confirm,
    Cancel,
}

/// Keyboard focus on the settings screen and in its confirmation window.
#[derive(Debug, Clone, Copy, PartialEq, Eq, Structural)]
pub struct SettingsNavFocus {
    pub current_item: SettingsFocusItem,
    pub modal_item: ModalFocusItem,
}

impl SettingsNavFocus {
    /// Focus on the master volume row, and on "cancel" in the window.
    pub fn new() -> (f: SettingsNavFocus)
        ensures
            f.current_item == SettingsFocusItem::MasterVolume,
            f.modal_item == ModalFocusItem::Cancel,
    {
        SettingsNavFocus {
            current_item: SettingsFocusItem::MasterVolume,
            modal_item: ModalFocusItem::Cancel,
        }
    }

    /// Puts the focus back where `new` puts it.
    pub fn reset(&mut self)
        ensures
            final(self).current_item == SettingsFocusItem::MasterVolume,
            final(self).modal_item == ModalFocusItem::Cancel,
    {
        self.current_item = SettingsFocusItem::MasterVolume;
        self.modal_item = ModalFocusItem::Cancel;
    }
}

impl Default for SettingsNavFocus {
    fn default() -> (f: SettingsNavFocus)
        ensures
            f.current_item == SettingsFocusItem::MasterVolume,
            f.modal_item == ModalFocusItem::Cancel,
    {
        SettingsNavFocus::new()
    }
}

/// What the settings screen asks of the game besides changing settings.
#[derive(Debug, Clone, Copy, PartialEq, Eq, Structural)]
pub struct SettingsEffects {
    /// The screen to switch to, if any.
    pub next_state: Option<AppState>,
    /// Show the "return to title" confirmation window.
    pub open_return_modal: bool,
    /// Close the confirmation window.
    pub close_return_modal: bool,
    /// Put the window back into windowed mode.
    pub force_windowed: bool,
}

/// No effect at all.
pub open spec fn no_effects() -> SettingsEffects {
    SettingsEffects {
        next_state: None,
        open_return_modal: false,
        close_return_modal: false,
        force_windowed: false,
    }
}

/// Number of rows that focus cycles through: with "resume" and "return to
/// title" in a game, with "back" elsewhere.
pub open spec fn nav_len(in_game: bool) -> int {
    if in_game {
        12
    } else {
        11
    }
}

/// Position of an item in the focus cycle; an item not in the cycle counts
/// as the first.
pub open spec fn nav_index(in_game: bool, item: SettingsFocusItem) -> int {
    match item {
        SettingsFocusItem::MasterVolume => 0,
        SettingsFocusItem::BgmVolume => 1,
        SettingsFocusItem::SfxVolume => 2,
        SettingsFocusItem::Resolution => 3,
        SettingsFocusItem::Fullscreen => 4,
        SettingsFocusItem::FpsLimit => 5,
        SettingsFocusItem::Vsync => 6,
        SettingsFocusItem::Shadows => 7,
        SettingsFocusItem::AntiAliasing => 8,
        SettingsFocusItem::ResetDefaults => 9,
        SettingsFocusItem::Resume => if in_game {
            10
        } else {
            0
        },
        SettingsFocusItem::ReturnToTitle => if in_game {
            11
        } else {
            0
        },
        SettingsFocusItem::Back => if in_game {
            0
        } else {
            10
        },
    }
}

/// The item at a position of the focus cycle.
pub open spec fn nav_item_at(in_game: bool, i: int) -> SettingsFocusItem {
    if i == 0 {
        SettingsFocusItem::MasterVolume
    } else if i == 1 {
        SettingsFocusItem::BgmVolume
    } else if i == 2 {
        SettingsFocusItem::SfxVolume
    } else if i == 3 {
        SettingsFocusItem::Resolution
    } else if i == 4 {
        SettingsFocusItem::Fullscreen
    } else if i == 5 {
        SettingsFocusItem::FpsLimit
    } else if i == 6 {
        SettingsFocusItem::Vsync
    } else if i == 7 {
        SettingsFocusItem::Shadows
    } else if i == 8 {
        SettingsFocusItem::AntiAliasing
    } else if i == 9 {
        SettingsFocusItem::ResetDefaults
    } else if i == 10 {
        if in_game {
            SettingsFocusItem::Resume
        } else {
            SettingsFocusItem::Back
        }
    } else {
        SettingsFocusItem::ReturnToTitle
    }
}

/// Left arrow on a row: lower a volume, previous resolution, frame cap or
/// anti-aliasing level, or flip a switch.
pub open spec fn adjust_left(s: GameSettings, item: SettingsFocusItem) -> GameSettings {
    match item {
        SettingsFocusItem::MasterVolume => GameSettings { master_volume: volume_down(s.master_volume), ..s },
        SettingsFocusItem::BgmVolume => GameSettings { bgm_volume: volume_down(s.bgm_volume), ..s },
        SettingsFocusItem::SfxVolume => GameSettings { sfx_volume: volume_down(s.sfx_volume), ..s },
        SettingsFocusItem::Resolution => GameSettings { resolution_index: resolution_prev(s.resolution_index), ..s },
        SettingsFocusItem::Fullscreen => GameSettings { fullscreen: !s.fullscreen, ..s },
        SettingsFocusItem::FpsLimit => GameSettings { fps_limit: fps_prev(s.fps_limit), ..s },
        SettingsFocusItem::Vsync => GameSettings { vsync: !s.vsync, ..s },
        SettingsFocusItem::Shadows => GameSettings { shadows_enabled: !s.shadows_enabled, ..s },
        SettingsFocusItem::AntiAliasing => GameSettings { anti_aliasing: aa_prev(s.anti_aliasing), ..s },
        _ => s,
    }
}

/// Right arrow on a row: raise a volume, next resolution, frame cap or
/// anti-aliasing level, or flip a switch.
pub open spec fn adjust_right(s: GameSettings, item: SettingsFocusItem) -> GameSettings {
    match item {
        SettingsFocusItem::MasterVolume => GameSettings { master_volume: volume_up(s.master_volume), ..s },
        SettingsFocusItem::BgmVolume => GameSettings { bgm_volume: volume_up(s.bgm_volume), ..s },
        SettingsFocusItem::SfxVolume => GameSettings { sfx_volume: volume_up(s.sfx_volume), ..s },
        SettingsFocusItem::Resolution => GameSettings { resolution_index: resolution_next(s.resolution_index), ..s },
        SettingsFocusItem::Fullscreen => GameSettings { fullscreen: !s.fullscreen, ..s },
        SettingsFocusItem::FpsLimit => GameSettings { fps_limit: fps_next(s.fps_limit), ..s },
        SettingsFocusItem::Vsync => GameSettings { vsync: !s.vsync, ..s },
        SettingsFocusItem::Shadows => GameSettings { shadows_enabled: !s.shadows_enabled, ..s },
        SettingsFocusItem::AntiAliasing => GameSettings { anti_aliasing: aa_next(s.anti_aliasing), ..s },
        _ => s,
    }
}

/// Enter or Space on a row: step a resolution, frame cap or anti-aliasing
/// level forward, flip a switch, or restore the defaults. Volumes do not
/// change.
pub open spec fn confirm_row(s: GameSettings, item: SettingsFocusItem, defaults: GameSettings) -> GameSettings {
    match item {
        SettingsFocusItem::Resolution => GameSettings { resolution_index: resolution_next(s.resolution_index), ..s },
        SettingsFocusItem::Fullscreen => GameSettings { fullscreen: !s.fullscreen, ..s },
        SettingsFocusItem::FpsLimit => GameSettings { fps_limit: fps_next(s.fps_limit), ..s },
        SettingsFocusItem::Vsync => GameSettings { vsync: !s.vsync, ..s },
        SettingsFocusItem::Shadows => GameSettings { shadows_enabled: !s.shadows_enabled, ..s },
        SettingsFocusItem::AntiAliasing => GameSettings { anti_aliasing: aa_next(s.anti_aliasing), ..s },
        SettingsFocusItem::ResetDefaults => with_defaults(s, defaults),
        _ => s,
    }
}

/// The confirmation window's part of `settings_nav`.
pub open spec fn settings_modal_nav(focus: SettingsNavFocus, s: GameSettings, keys: KeyInput) -> (
    SettingsNavFocus,
    GameSettings,
    SettingsEffects,
) {
    let jp = |k: Key| keys.is_just_pressed(k);
    let confirm = jp(Key::Enter) || jp(Key::Space);
    let toggle = jp(Key::ArrowLeft) || jp(Key::ArrowRight) || jp(Key::KeyA) || jp(Key::KeyD) || jp(
        Key::Tab,
    );
    let m1 = if toggle {
        match focus.modal_item {
            ModalFocusItem::Confirm => ModalFocusItem::Cancel,
            ModalFocusItem::Cancel => ModalFocusItem::Confirm,
        }
    } else {
        focus.modal_item
    };
    if jp(Key::Escape) {
        (
            SettingsNavFocus { modal_item: ModalFocusItem::Cancel, ..focus },
            s,
            SettingsEffects { close_return_modal: true, ..no_effects() },
        )
    } else if confirm && m1 == ModalFocusItem::Confirm {
        (
            SettingsNavFocus { modal_item: m1, ..focus },
            GameSettings { return_state: AppState::Title, ..s },
            SettingsEffects {
                next_state: Some(AppState::Title),
                close_return_modal: true,
                ..no_effects()
            },
        )
    } else if confirm {
        (
            SettingsNavFocus { modal_item: m1, ..focus },
            s,
            SettingsEffects { close_return_modal: true, ..no_effects() },
        )
    } else {
        (SettingsNavFocus { modal_item: m1, ..focus }, s, no_effects())
    }
}

/// The focus after up/W and down/S: round the cycle of rows, down winning
/// when both are pressed.
pub open spec fn vertical_focus(in_game: bool, item: SettingsFocusItem, keys: KeyInput) -> SettingsFocusItem {
    let jp = |k: Key| keys.is_just_pressed(k);
    let n = nav_len(in_game);
    let idx = nav_index(in_game, item);
    if jp(Key::ArrowDown) || jp(Key::KeyS) {
        nav_item_at(in_game, (idx + 1) % n)
    } else if jp(Key::ArrowUp) || jp(Key::KeyW) {
        nav_item_at(in_game, if idx == 0 { n - 1 } else { idx - 1 })
    } else {
        item
    }
}

/// Focus and settings after left/A and right/D.
pub open spec fn horizontal_step(item: SettingsFocusItem, s: GameSettings, keys: KeyInput) -> (
    SettingsFocusItem,
    GameSettings,
) {
    let jp = |k: Key| keys.is_just_pressed(k);
    let left = jp(Key::ArrowLeft) || jp(Key::KeyA);
    let right = jp(Key::ArrowRight) || jp(Key::KeyD);
    let s2 = if left { adjust_left(s, item) } else { s };
    let f2 = if left && item == SettingsFocusItem::ReturnToTitle {
        SettingsFocusItem::Resume
    } else {
        item
    };
    let s3 = if right { adjust_right(s2, f2) } else { s2 };
    let f3 = if right && f2 == SettingsFocusItem::Resume {
        SettingsFocusItem::ReturnToTitle
    } else {
        f2
    };
    (f3, s3)
}

/// The screen's part of `settings_nav`, when no window is open.
pub open spec fn settings_main_nav(
    focus: SettingsNavFocus,
    s: GameSettings,
    keys: KeyInput,
    defaults: GameSettings,
) -> (SettingsNavFocus, GameSettings, SettingsEffects) {
    let jp = |k: Key| keys.is_just_pressed(k);
    let confirm = jp(Key::Enter) || jp(Key::Space);
    let in_game = s.return_state == AppState::InGame;
    let f1 = vertical_focus(in_game, focus.current_item, keys);
    let (f3, s3) = horizontal_step(f1, s, keys);
    let s4 = if confirm { confirm_row(s3, f3, defaults) } else { s3 };
    let next4 = if confirm && f3 == SettingsFocusItem::Resume {
        Some(AppState::InGame)
    } else if confirm && f3 == SettingsFocusItem::Back {
        Some(s.return_state)
    } else {
        None
    };
    let open = confirm && f3 == SettingsFocusItem::ReturnToTitle;
    let m = if open { ModalFocusItem::Cancel } else { focus.modal_item };
    let next5 = if jp(Key::Escape) { Some(s.return_state) } else { next4 };
    (
        SettingsNavFocus { current_item: f3, modal_item: m },
        s4,
        SettingsEffects { next_state: next5, open_return_modal: open, ..no_effects() },
    )
}

/// Focus, settings and effects after one frame of keyboard input on the
/// settings screen.
///
/// In the confirmation window, left/right/A/D/Tab switch buttons, Escape
/// closes it with focus back on "cancel", and Enter/Space carries out the
/// focused button. On the screen itself: up/W and down/S move the focus
/// round the rows (down wins), left/A and right/D adjust the focused row (on
/// the last two rows they move between "resume" and "return to title"),
/// Enter/Space carries out the focused row, and Escape goes back.
pub open spec fn settings_nav(
    focus: SettingsNavFocus,
    s: GameSettings,
    modal_open: bool,
    keys: KeyInput,
    defaults: GameSettings,
) -> (SettingsNavFocus, GameSettings, SettingsEffects) {
    if modal_open {
        settings_modal_nav(focus, s, keys)
    } else {
        settings_main_nav(focus, s, keys, defaults)
    }
}

fn nav_index_exec(in_game: bool, item: SettingsFocusItem) -> (i: usize)
    ensures
        i == nav_index(in_game, item),
        i < nav_len(in_game),
{
    match item {
        SettingsFocusItem::MasterVolume => 0,
        SettingsFocusItem::BgmVolume => 1,
        SettingsFocusItem::SfxVolume => 2,
        SettingsFocusItem::Resolution => 3,
        SettingsFocusItem::Fullscreen => 4,
        SettingsFocusItem::FpsLimit => 5,
        SettingsFocusItem::Vsync => 6,
        SettingsFocusItem::Shadows => 7,
        SettingsFocusItem::AntiAliasing => 8,
        SettingsFocusItem::ResetDefaults => 9,
        SettingsFocusItem::Resume => if in_game {
            10
        } else {
            0
        },
        SettingsFocusItem::ReturnToTitle => if in_game {
            11
        } else {
            0
        },
        SettingsFocusItem::Back => if in_game {
            0
        } else {
            10
        },
    }
}

fn nav_item_at_exec(in_game: bool, i: usize) -> (item: SettingsFocusItem)
    ensures
        item == nav_item_at(in_game, i as int),
{
    match i {
        0 => SettingsFocusItem::MasterVolume,
        1 => SettingsFocusItem::BgmVolume,
        2 => SettingsFocusItem::SfxVolume,
        3 => SettingsFocusItem::Resolution,
        4 => SettingsFocusItem::Fullscreen,
        5 => SettingsFocusItem::FpsLimit,
        6 => SettingsFocusItem::Vsync,
        7 => SettingsFocusItem::Shadows,
        8 => SettingsFocusItem::AntiAliasing,
        9 => SettingsFocusItem::ResetDefaults,
        10 => if in_game {
            SettingsFocusItem::Resume
        } else {
            SettingsFocusItem::Back
        },
        _ => SettingsFocusItem::ReturnToTitle,
    }
}

fn adjust_left_exec(s: &mut GameSettings, item: SettingsFocusItem)
    requires
        old(s).wf(),
    ensures
        *final(s) == adjust_left(*old(s), item),
        final(s).wf(),
{
    match item {
        SettingsFocusItem::MasterVolume => {
            s.master_volume = volume_down_exec(s.master_volume);
        },
        SettingsFocusItem::BgmVolume => {
            s.bgm_volume = volume_down_exec(s.bgm_volume);
        },
        SettingsFocusItem::SfxVolume => {
            s.sfx_volume = volume_down_exec(s.sfx_volume);
        },
        SettingsFocusItem::Resolution => {
            s.resolution_index = resolution_prev_exec(s.resolution_index);
        },
        SettingsFocusItem::Fullscreen => {
            s.fullscreen = !s.fullscreen;
        },
        SettingsFocusItem::FpsLimit => {
            s.fps_limit = s.fps_limit.prev();
        },
        SettingsFocusItem::Vsync => {
            s.vsync = !s.vsync;
        },
        SettingsFocusItem::Shadows => {
            s.shadows_enabled = !s.shadows_enabled;
        },
        SettingsFocusItem::AntiAliasing => {
            s.anti_aliasing = s.anti_aliasing.prev();
        },
        _ => {},
    }
}

fn adjust_right_exec(s: &mut GameSettings, item: SettingsFocusItem)
    requires
        old(s).wf(),
    ensures
        *final(s) == adjust_right(*old(s), item),
        final(s).wf(),
{
    match item {
        SettingsFocusItem::MasterVolume => {
            s.master_volume = volume_up_exec(s.master_volume);
        },
        SettingsFocusItem::BgmVolume => {
            s.bgm_volume = volume_up_exec(s.bgm_volume);
        },
        SettingsFocusItem::SfxVolume => {
            s.sfx_volume = volume_up_exec(s.sfx_volume);
        },
        SettingsFocusItem::Resolution => {
            s.resolution_index = resolution_next_exec(s.resolution_index);
        },
        SettingsFocusItem::Fullscreen => {
            s.fullscreen = !s.fullscreen;
        },
        SettingsFocusItem::FpsLimit => {
            s.fps_limit = s.fps_limit.next();
        },
        SettingsFocusItem::Vsync => {
            s.vsync = !s.vsync;
        },
        SettingsFocusItem::Shadows => {
            s.shadows_enabled = !s.shadows_enabled;
        },
        SettingsFocusItem::AntiAliasing => {
            s.anti_aliasing = s.anti_aliasing.next();
        },
        _ => {},
    }
}

fn confirm_row_exec(s: &mut GameSettings, item: SettingsFocusItem, defaults: &GameSettings)
    requires
        old(s).wf(),
        defaults.wf(),
    ensures
        *final(s) == confirm_row(*old(s), item, *defaults),
        final(s).wf(),
{
    match item {
        SettingsFocusItem::Resolution => {
            s.resolution_index = resolution_next_exec(s.resolution_index);
        },
        SettingsFocusItem::Fullscreen => {
            s.fullscreen = !s.fullscreen;
        },
        SettingsFocusItem::FpsLimit => {
            s.fps_limit = s.fps_limit.next();
        },
        SettingsFocusItem::Vsync => {
            s.vsync = !s.vsync;
        },
        SettingsFocusItem::Shadows => {
            s.shadows_enabled = !s.shadows_enabled;
        },
        SettingsFocusItem::AntiAliasing => {
            s.anti_aliasing = s.anti_aliasing.next();
        },
        SettingsFocusItem::ResetDefaults => {
            apply_defaults(s, defaults);
        },
        _ => {},
    }
}

fn settings_modal_step(
    focus: &mut SettingsNavFocus,
    settings: &mut GameSettings,
    keys: &KeyInput,
) -> (effects: SettingsEffects)
    requires
        old(settings).wf(),
    ensures
        final(settings).wf(),
        (*final(focus), *final(settings), effects) == settings_modal_nav(
            *old(focus),
            *old(settings),
            *keys,
        ),
{
    let mut effects = SettingsEffects {
        next_state: None,
        open_return_modal: false,
        close_return_modal: false,
        force_windowed: false,
    };
    let confirm = keys.just_pressed(Key::Enter) || keys.just_pressed(Key::Space);
    if keys.just_pressed(Key::ArrowLeft) || keys.just_pressed(Key::ArrowRight) || keys.just_pressed(
        Key::KeyA,
    ) || keys.just_pressed(Key::KeyD) || keys.just_pressed(Key::Tab) {
        focus.modal_item = match focus.modal_item {
            ModalFocusItem::Confirm => ModalFocusItem::Cancel,
            ModalFocusItem::Cancel => ModalFocusItem::Confirm,
        };
    }
    if keys.just_pressed(Key::Escape) {
        effects.close_return_modal = true;
        focus.modal_item = ModalFocusItem::Cancel;
        return effects;
    }
    if confirm {
        match focus.modal_item {
            ModalFocusItem::Confirm => {
                effects.close_return_modal = true;
                settings.return_state = AppState::Title;
                effects.next_state = Some(AppState::Title);
            },
            ModalFocusItem::Cancel => {
                effects.close_return_modal = true;
            },
        }
    }
    effects
}

fn vertical_step(focus: &mut SettingsNavFocus, in_game: bool, keys: &KeyInput)
    ensures
        final(focus).current_item == vertical_focus(in_game, old(focus).current_item, *keys),
        final(focus).modal_item == old(focus).modal_item,
{
    let n: usize = if in_game {
        12
    } else {
        11
    };
    let current_idx = nav_index_exec(in_game, focus.current_item);
    if keys.just_pressed(Key::ArrowUp) || keys.just_pressed(Key::KeyW) {
        let prev_idx = if current_idx == 0 {
            n - 1
        } else {
            current_idx - 1
        };
        focus.current_item = nav_item_at_exec(in_game, prev_idx);
    }
    if keys.just_pressed(Key::ArrowDown) || keys.just_pressed(Key::KeyS) {
        let next_idx = (current_idx + 1) % n;
        focus.current_item = nav_item_at_exec(in_game, next_idx);
    }
}

fn horizontal_step_exec(focus: &mut SettingsNavFocus, settings: &mut GameSettings, keys: &KeyInput)
    requires
        old(settings).wf(),
    ensures
        final(settings).wf(),
        (final(focus).current_item, *final(settings)) == horizontal_step(
            old(focus).current_item,
            *old(settings),
            *keys,
        ),
        final(focus).modal_item == old(focus).modal_item,
{
    if keys.just_pressed(Key::ArrowLeft) || keys.just_pressed(Key::KeyA) {
        adjust_left_exec(settings, focus.current_item);
        if focus.current_item == SettingsFocusItem::ReturnToTitle {
            focus.current_item = SettingsFocusItem::Resume;
        }
    }
    if keys.just_pressed(Key::ArrowRight) || keys.just_pressed(Key::KeyD) {
        adjust_right_exec(settings, focus.current_item);
        if focus.current_item == SettingsFocusItem::Resume {
            focus.current_item = SettingsFocusItem::ReturnToTitle;
        }
    }
}

fn settings_main_step(
    focus: &mut SettingsNavFocus,
    settings: &mut GameSettings,
    keys: &KeyInput,
    defaults: &GameSettings,
) -> (effects: SettingsEffects)
    requires
        old(settings).wf(),
        defaults.wf(),
    ensures
        final(settings).wf(),
        (*final(focus), *final(settings), effects) == settings_main_nav(
            *old(focus),
            *old(settings),
            *keys,
            *defaults,
        ),
{
    let mut effects = SettingsEffects {
        next_state: None,
        open_return_modal: false,
        close_return_modal: false,
        force_windowed: false,
    };
    let confirm = keys.just_pressed(Key::Enter) || keys.just_pressed(Key::Space);
    let return_state = settings.return_state;
    let in_game = settings.return_state == AppState::InGame;
    vertical_step(focus, in_game, keys);
    horizontal_step_exec(focus, settings, keys);
    if confirm {
        confirm_row_exec(settings, focus.current_item, defaults);
        match focus.current_item {
            SettingsFocusItem::Resume => {
                effects.next_state = Some(AppState::InGame);
            },
            SettingsFocusItem::ReturnToTitle => {
                focus.modal_item = ModalFocusItem::Cancel;
                effects.open_return_modal = true;
            },
            SettingsFocusItem::Back => {
                effects.next_state = Some(return_state);
            },
            _ => {},
        }
    }
    if keys.just_pressed(Key::Escape) {
        effects.next_state = Some(return_state);
    }
    effects
}

/// Handles one frame of keyboard input on the settings screen, as
/// `settings_nav` states; `defaults` are the settings that "reset" restores.
pub fn settings_keyboard_navigation(
    focus: &mut SettingsNavFocus,
    settings: &mut GameSettings,
    modal_open: bool,
    keys: &KeyInput,
    defaults: &GameSettings,
) -> (effects: SettingsEffects)
    requires
        old(settings).wf(),
        defaults.wf(),
    ensures
        final(settings).wf(),
        (*final(focus), *final(settings), effects) == settings_nav(
            *old(focus),
            *old(settings),
            modal_open,
            *keys,
            *defaults,
        ),
{
    if modal_open {
        settings_modal_step(focus, settings, keys)
    } else {
        settings_main_step(focus, settings, keys, defaults)
    }
}

/// Buttons of the settings screen and of its confirmation window.
#[derive(Debug, Clone, Copy, PartialEq, Eq, Hash, Structural)]
pub enum SettingsButtonAction {
    MasterVolumeDown,
    MasterVolumeUp,
    BgmVolumeDown,
    BgmVolumeUp,
    SfxVolumeDown,
    SfxVolumeUp,
    ResolutionPrev,
    ResolutionNext,
    ToggleFullscreen,
    FpsLimitPrev,
    FpsLimitNext,
    ToggleVsync,
    ToggleShadows,
    AntiAliasingPrev,
    AntiAliasingNext,
    ResetDefaults,
    ResumeGame,
    RequestReturnToTitle,
    ConfirmReturnToTitle,
    CancelReturnToTitle,
    Back,
}

/// Settings and effects after a click on a settings button. Resetting also
/// puts the window back into windowed mode; asking to return to the title
/// opens the confirmation window unless it is already open.
pub open spec fn settings_button(
    action: SettingsButtonAction,
    s: GameSettings,
    modal_open: bool,
    defaults: GameSettings,
) -> (GameSettings, SettingsEffects) {
    match action {
        SettingsButtonAction::MasterVolumeDown => (adjust_left(s, SettingsFocusItem::MasterVolume), no_effects()),
        SettingsButtonAction::MasterVolumeUp => (adjust_right(s, SettingsFocusItem::MasterVolume), no_effects()),
        SettingsButtonAction::BgmVolumeDown => (adjust_left(s, SettingsFocusItem::BgmVolume), no_effects()),
        SettingsButtonAction::BgmVolumeUp => (adjust_right(s, SettingsFocusItem::BgmVolume), no_effects()),
        SettingsButtonAction::SfxVolumeDown => (adjust_left(s, SettingsFocusItem::SfxVolume), no_effects()),
        SettingsButtonAction::SfxVolumeUp => (adjust_right(s, SettingsFocusItem::SfxVolume), no_effects()),
        SettingsButtonAction::ResolutionPrev => (adjust_left(s, SettingsFocusItem::Resolution), no_effects()),
        SettingsButtonAction::ResolutionNext => (adjust_right(s, SettingsFocusItem::Resolution), no_effects()),
        SettingsButtonAction::ToggleFullscreen => (adjust_right(s, SettingsFocusItem::Fullscreen), no_effects()),
        SettingsButtonAction::FpsLimitPrev => (adjust_left(s, SettingsFocusItem::FpsLimit), no_effects()),
        SettingsButtonAction::FpsLimitNext => (adjust_right(s, SettingsFocusItem::FpsLimit), no_effects()),
        SettingsButtonAction::ToggleVsync => (adjust_right(s, SettingsFocusItem::Vsync), no_effects()),
        SettingsButtonAction::ToggleShadows => (adjust_right(s, SettingsFocusItem::Shadows), no_effects()),
        SettingsButtonAction::AntiAliasingPrev => (adjust_left(s, SettingsFocusItem::AntiAliasing), no_effects()),
        SettingsButtonAction::AntiAliasingNext => (adjust_right(s, SettingsFocusItem::AntiAliasing), no_effects()),
        SettingsButtonAction::ResetDefaults => (
            with_defaults(s, defaults),
            SettingsEffects { force_windowed: true, ..no_effects() },
        ),
        SettingsButtonAction::ResumeGame => (
            s,
            SettingsEffects { next_state: Some(AppState::InGame), ..no_effects() },
        ),
        SettingsButtonAction::RequestReturnToTitle => (
            s,
            SettingsEffects { open_return_modal: !modal_open, ..no_effects() },
        ),
        SettingsButtonAction::ConfirmReturnToTitle => (
            GameSettings { return_state: AppState::Title, ..s },
            SettingsEffects {
                next_state: Some(AppState::Title),
                close_return_modal: true,
                ..no_effects()
            },
        ),
        SettingsButtonAction::CancelReturnToTitle => (
            s,
            SettingsEffects { close_return_modal: true, ..no_effects() },
        ),
        SettingsButtonAction::Back => (
            s,
            SettingsEffects { next_state: Some(s.return_state), ..no_effects() },
        ),
    }
}

/// Carries out a click on a settings button, as `settings_button` states.
pub fn settings_button_action(
    action: SettingsButtonAction,
    settings: &mut GameSettings,
    modal_open: bool,
    defaults: &GameSettings,
) -> (effects: SettingsEffects)
    requires
        old(settings).wf(),
        defaults.wf(),
    ensures
        final(settings).wf(),
        (*final(settings), effects) == settings_button(
            action,
            *old(settings),
            modal_open,
            *defaults,
        ),
{
    let mut effects = SettingsEffects {
        next_state: None,
        open_return_modal: false,
        close_return_modal: false,
        force_windowed: false,
    };
    match action {
        SettingsButtonAction::MasterVolumeDown => adjust_left_exec(
            settings,
            SettingsFocusItem::MasterVolume,
        ),
        SettingsButtonAction::MasterVolumeUp => adjust_right_exec(
            settings,
            SettingsFocusItem::MasterVolume,
        ),
        SettingsButtonAction::BgmVolumeDown => adjust_left_exec(
            settings,
            SettingsFocusItem::BgmVolume,
        ),
        SettingsButtonAction::BgmVolumeUp => adjust_right_exec(
            settings,
            SettingsFocusItem::BgmVolume,
        ),
        SettingsButtonAction::SfxVolumeDown => adjust_left_exec(
            settings,
            SettingsFocusItem::SfxVolume,
        ),
        SettingsButtonAction::SfxVolumeUp => adjust_right_exec(
            settings,
            SettingsFocusItem::SfxVolume,
        ),
        SettingsButtonAction::ResolutionPrev => adjust_left_exec(
            settings,
            SettingsFocusItem::Resolution,
        ),
        SettingsButtonAction::ResolutionNext => adjust_right_exec(
            settings,
            SettingsFocusItem::Resolution,
        ),
        SettingsButtonAction::ToggleFullscreen => adjust_right_exec(
            settings,
            SettingsFocusItem::Fullscreen,
        ),
        SettingsButtonAction::FpsLimitPrev => adjust_left_exec(
            settings,
            SettingsFocusItem::FpsLimit,
        ),
        SettingsButtonAction::FpsLimitNext => adjust_right_exec(
            settings,
            SettingsFocusItem::FpsLimit,
        ),
        SettingsButtonAction::ToggleVsync => adjust_right_exec(settings, SettingsFocusItem::Vsync),
        SettingsButtonAction::ToggleShadows => adjust_right_exec(
            settings,
            SettingsFocusItem::Shadows,
        ),
        SettingsButtonAction::AntiAliasingPrev => adjust_left_exec(
            settings,
            SettingsFocusItem::AntiAliasing,
        ),
        SettingsButtonAction::AntiAliasingNext => adjust_right_exec(
            settings,
            SettingsFocusItem::AntiAliasing,
        ),
        SettingsButtonAction::ResetDefaults => {
            apply_defaults(settings, defaults);
            effects.force_windowed = true;
        },
        SettingsButtonAction::ResumeGame => {
            effects.next_state = Some(AppState::InGame);
        },
        SettingsButtonAction::RequestReturnToTitle => {
            if !modal_open {
                effects.open_return_modal = true;
            }
        },
        SettingsButtonAction::ConfirmReturnToTitle => {
            effects.close_return_modal = true;
            settings.return_state = AppState::Title;
            effects.next_state = Some(AppState::Title);
        },
        SettingsButtonAction::CancelReturnToTitle => {
            effects.close_return_modal = true;
        },
        SettingsButtonAction::Back => {
            effects.next_state = Some(settings.return_state);
        },
    }
    effects
}

/// Stepping a row forward and then back restores every cyclic setting and
/// every switch; a volume is restored when it was a multiple of ten below
/// 100.
pub proof fn lemma_adjust_right_then_left(s: GameSettings, item: SettingsFocusItem)
    requires
        s.wf(),
        item == SettingsFocusItem::MasterVolume ==> s.master_volume < 100 && s.master_volume % 10 == 0,
        item == SettingsFocusItem::BgmVolume ==> s.bgm_volume < 100 && s.bgm_volume % 10 == 0,
        item == SettingsFocusItem::SfxVolume ==> s.sfx_volume < 100 && s.sfx_volume % 10 == 0,
    ensures
        adjust_left(adjust_right(s, item), item) == s,
{
}

/// Keyboard focus always rests on a row of the current cycle, and moving
/// down then up returns to the starting row.
pub proof fn lemma_focus_cycle(in_game: bool, i: int)
    requires
        0 <= i < nav_len(in_game),
    ensures
        nav_index(in_game, nav_item_at(in_game, i)) == i,
        ({
            let n = nav_len(in_game);
            let j = (i + 1) % n;
            let back = if j == 0 { n - 1 } else { j - 1 };
            back == i
        }),
{
}

proof fn lemma_adjust_keeps_valid(s: GameSettings, item: SettingsFocusItem, defaults: GameSettings)
    requires
        s.wf(),
        defaults.wf(),
    ensures
        adjust_left(s, item).wf(),
        adjust_right(s, item).wf(),
        confirm_row(s, item, defaults).wf(),
{
}

/// Every change made on the settings screen keeps volumes within 0 to 100
/// and the resolution a valid preset.
pub proof fn lemma_settings_stay_valid(
    focus: SettingsNavFocus,
    s: GameSettings,
    modal_open: bool,
    keys: KeyInput,
    defaults: GameSettings,
    action: SettingsButtonAction,
)
    requires
        s.wf(),
        defaults.wf(),
    ensures
        settings_nav(focus, s, modal_open, keys, defaults).1.wf(),
        settings_button(action, s, modal_open, defaults).0.wf(),
{
    let jp = |k: Key| keys.is_just_pressed(k);
    let in_game = s.return_state == AppState::InGame;
    let f1 = vertical_focus(in_game, focus.current_item, keys);
    let left = jp(Key::ArrowLeft) || jp(Key::KeyA);
    let s2 = if left { adjust_left(s, f1) } else { s };
    lemma_adjust_keeps_valid(s, f1, defaults);
    let f2 = if left && f1 == SettingsFocusItem::ReturnToTitle {
        SettingsFocusItem::Resume
    } else {
        f1
    };
    lemma_adjust_keeps_valid(s2, f2, defaults);
    let (f3, s3) = horizontal_step(f1, s, keys);
    lemma_adjust_keeps_valid(s3, f3, defaults);
    lemma_adjust_keeps_valid(s, SettingsFocusItem::MasterVolume, defaults);
    lemma_adjust_keeps_valid(s, SettingsFocusItem::BgmVolume, defaults);
    lemma_adjust_keeps_valid(s, SettingsFocusItem::SfxVolume, defaults);
    lemma_adjust_keeps_valid(s, SettingsFocusItem::Resolution, defaults);
}

} // verus!
