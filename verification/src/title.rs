use vstd::prelude::*;
use crate::app_state::AppState;
use crate::keys::{Key, KeyInput};

verus! {

/// Entries of the title menu.
#[derive(Debug, Clone, Copy, PartialEq, Eq, Hash, Structural)]
pub enum MenuButtonAction {
    NewGame,
    LoadGame,
    Settings,
    Exit,
}

/// The title menu entries, top to bottom.
pub const MENU_ACTIONS: [MenuButtonAction; 4] = [
    MenuButtonAction::NewGame,
    MenuButtonAction::LoadGame,
    MenuButtonAction::Settings,
    MenuButtonAction::Exit,
];

/// The title menu entry at a position.
pub open spec fn menu_action_at(i: int) -> MenuButtonAction {
    if i == 0 {
        MenuButtonAction::NewGame
    } else if i == 1 {
        MenuButtonAction::LoadGame
    } else if i == 2 {
        MenuButtonAction::Settings
    } else {
        MenuButtonAction::Exit
    }
}

/// Keyboard focus of the title menu.
#[derive(Debug, Clone, Copy, PartialEq, Eq, Structural)]
pub struct TitleMenuFocus {
    pub selected_index: Option<usize>,
}

impl TitleMenuFocus {
    /// No entry focused.
    pub fn new() -> (f: TitleMenuFocus)
        ensures
            f.selected_index is None,
    {
        TitleMenuFocus { selected_index: None }
    }

    /// Focus on the top entry ("new game").
    pub fn reset(&mut self)
        ensures
            final(self).selected_index == Some(0usize),
    {
        self.selected_index = Some(0);
    }

    /// The pointer rests on (or presses) the entry at `index`.
    pub fn hover(&mut self, index: usize)
        ensures
            final(self).selected_index == Some(index),
    {
        self.selected_index = Some(index);
    }
}

impl Default for TitleMenuFocus {
    fn default() -> (f: TitleMenuFocus)
        ensures
            f.selected_index is None,
    {
        TitleMenuFocus::new()
    }
}

/// What the title menu asks of the game.
#[derive(Debug, Clone, Copy, PartialEq, Eq, Structural)]
pub struct TitleEffects {
    /// The screen to switch to, if any.
    pub next_state: Option<AppState>,
    /// Leave the game.
    pub exit_app: bool,
}

/// Return screen and effects of a title menu entry: a new game goes to
/// faction selection, settings open with "back" leading to the title, exit
/// leaves the game, and loading a game does nothing yet.
pub open spec fn title_action(action: MenuButtonAction, return_state: AppState) -> (AppState, TitleEffects) {
    match action {
        MenuButtonAction::NewGame => (
            return_state,
            TitleEffects { next_state: Some(AppState::FactionSelect), exit_app: false },
        ),
        MenuButtonAction::LoadGame => (return_state, TitleEffects { next_state: None, exit_app: false }),
        MenuButtonAction::Settings => (
            AppState::Title,
            TitleEffects { next_state: Some(AppState::Settings), exit_app: false },
        ),
        MenuButtonAction::Exit => (return_state, TitleEffects { next_state: None, exit_app: true }),
    }
}

/// Carries out a title menu entry, as `title_action` states.
pub fn execute_title_action(action: MenuButtonAction, return_state: &mut AppState) -> (e: TitleEffects)
    ensures
        (*final(return_state), e) == title_action(action, *old(return_state)),
{
    match action {
        MenuButtonAction::NewGame => TitleEffects {
            next_state: Some(AppState::FactionSelect),
            exit_app: false,
        },
        MenuButtonAction::LoadGame => TitleEffects { next_state: None, exit_app: false },
        MenuButtonAction::Settings => {
            *return_state = AppState::Title;
            TitleEffects { next_state: Some(AppState::Settings), exit_app: false }
        },
        MenuButtonAction::Exit => TitleEffects { next_state: None, exit_app: true },
    }
}

/// Focus after up/W or down/S: round the four entries, starting from the
/// top when nothing is focused; up wins when both are pressed.
pub open spec fn title_focus_after(selected: Option<usize>, keys: KeyInput) -> Option<usize> {
    let jp = |k: Key| keys.is_just_pressed(k);
    let current = match selected {
        Some(i) => i as int,
        None => 0,
    };
    if jp(Key::ArrowUp) || jp(Key::KeyW) {
        Some((if current == 0 { 3 } else { current - 1 }) as usize)
    } else if jp(Key::ArrowDown) || jp(Key::KeyS) {
        Some(((current + 1) % 4) as usize)
    } else {
        selected
    }
}

/// Focus, return screen and effects after one frame of keyboard input on
/// the title screen: the focus moves, then Enter/Space carries out the
/// focused entry.
pub open spec fn title_nav(selected: Option<usize>, return_state: AppState, keys: KeyInput) -> (
    Option<usize>,
    AppState,
    TitleEffects,
) {
    let jp = |k: Key| keys.is_just_pressed(k);
    let sel = title_focus_after(selected, keys);
    if (jp(Key::Enter) || jp(Key::Space)) && sel is Some && sel->0 < 4 {
        let (r, e) = title_action(menu_action_at(sel->0 as int), return_state);
        (sel, r, e)
    } else {
        (sel, return_state, TitleEffects { next_state: None, exit_app: false })
    }
}

/// Handles one frame of keyboard input on the title screen, as `title_nav`
/// states.
pub fn title_keyboard_navigation(
    focus: &mut TitleMenuFocus,
    return_state: &mut AppState,
    keys: &KeyInput,
) -> (e: TitleEffects)
    requires
        old(focus).selected_index matches Some(i) ==> i < usize::MAX,
    ensures
        (final(focus).selected_index, *final(return_state), e) == title_nav(
            old(focus).selected_index,
            *old(return_state),
            *keys,
        ),
{
    let count = MENU_ACTIONS.len();
    let current = match focus.selected_index {
        Some(i) => i,
        None => 0,
    };
    if keys.just_pressed(Key::ArrowUp) || keys.just_pressed(Key::KeyW) {
        focus.selected_index = Some(
            if current == 0 {
                count - 1
            } else {
                current - 1
            },
        );
    } else if keys.just_pressed(Key::ArrowDown) || keys.just_pressed(Key::KeyS) {
        focus.selected_index = Some((current + 1) % count);
    }
    if keys.just_pressed(Key::Enter) || keys.just_pressed(Key::Space) {
        if let Some(selected) = focus.selected_index {
            if selected < count {
                return execute_title_action(MENU_ACTIONS[selected], return_state);
            }
        }
    }
    TitleEffects { next_state: None, exit_app: false }
}

} // verus!
