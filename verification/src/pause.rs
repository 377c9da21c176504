use vstd::prelude::*;
use crate::app_state::AppState;
use crate::keys::{Key, KeyInput};

verus! {

/// What the pause menu's confirmation window asks about.
#[derive(Debug, Clone, Copy, PartialEq, Eq, Hash, Structural)]
pub enum PauseModalType {
    ReturnToTitle,
    QuitToDesktop,
}

/// Entries of the pause menu.
#[derive(Debug, Clone, Copy, PartialEq, Eq, Hash, Structural)]
pub enum PauseMenuItem {
    Resume,
    Settings,
    ReturnToTitle,
    QuitToDesktop,
}

/// The pause menu entries, top to bottom.
pub const PAUSE_MENU_ITEMS: [PauseMenuItem; 4] = [
    PauseMenuItem::Resume,
    PauseMenuItem::Settings,
    PauseMenuItem::ReturnToTitle,
    PauseMenuItem::QuitToDesktop,
];

/// Buttons of the confirmation window.
#[derive(Debug, Clone, Copy, PartialEq, Eq, Hash, Structural)]
pub enum PauseModalFocusItem {
    Confirm,
    Cancel,
}

/// Keyboard focus and window state of the pause menu.
#[derive(Debug, Clone, Copy, PartialEq, Eq, Structural)]
pub struct PauseMenuFocus {
    pub current_item: PauseMenuItem,
    pub modal_open: bool,
    pub modal_type: PauseModalType,
    pub modal_focus: PauseModalFocusItem,
}

/// The focus state on entering the pause menu.
pub open spec fn initial_pause_focus() -> PauseMenuFocus {
    PauseMenuFocus {
        current_item: PauseMenuItem::Resume,
        modal_open: false,
        modal_type: PauseModalType::ReturnToTitle,
        modal_focus: PauseModalFocusItem::Cancel,
    }
}

impl PauseMenuFocus {
    /// Focus on "resume", no window open.
    pub fn new() -> (f: PauseMenuFocus)
        ensures
            f == initial_pause_focus(),
    {
        PauseMenuFocus {
            current_item: PauseMenuItem::Resume,
            modal_open: false,
            modal_type: PauseModalType::ReturnToTitle,
            modal_focus: PauseModalFocusItem::Cancel,
        }
    }

    /// Puts the focus back where `new` puts it.
    pub fn reset(&mut self)
        ensures
            *final(self) == initial_pause_focus(),
    {
        *self = PauseMenuFocus::new();
    }
}

impl Default for PauseMenuFocus {
    fn default() -> (f: PauseMenuFocus)
        ensures
            f == initial_pause_focus(),
    {
        PauseMenuFocus::new()
    }
}

/// What the pause menu asks of the game besides changing its focus.
#[derive(Debug, Clone, Copy, PartialEq, Eq, Structural)]
pub struct PauseEffects {
    /// The screen to switch to, if any.
    pub next_state: Option<AppState>,
    /// Leave the game.
    pub exit_app: bool,
    /// Show the confirmation window of this kind.
    pub open_modal: Option<PauseModalType>,
    /// Remove the confirmation window.
    pub close_modal: bool,
}

pub open spec fn no_pause_effects() -> PauseEffects {
    PauseEffects { next_state: None, exit_app: false, open_modal: None, close_modal: false }
}

/// Position of an entry in `PAUSE_MENU_ITEMS`.
pub open spec fn pause_index(item: PauseMenuItem) -> int {
    match item {
        PauseMenuItem::Resume => 0,
        PauseMenuItem::Settings => 1,
        PauseMenuItem::ReturnToTitle => 2,
        PauseMenuItem::QuitToDesktop => 3,
    }
}

/// The entry at a position of `PAUSE_MENU_ITEMS`.
pub open spec fn pause_item_at(i: int) -> PauseMenuItem {
    if i == 0 {
        PauseMenuItem::Resume
    } else if i == 1 {
        PauseMenuItem::Settings
    } else if i == 2 {
        PauseMenuItem::ReturnToTitle
    } else {
        PauseMenuItem::QuitToDesktop
    }
}

/// Focus, return screen and effects after "confirm" in the window: it
/// closes, and then either the game returns to the title (to which "back"
/// now leads) or it quits.
pub open spec fn confirm_pause_modal(f: PauseMenuFocus, return_state: AppState) -> (
    PauseMenuFocus,
    AppState,
    PauseEffects,
) {
    let closed = PauseMenuFocus { modal_open: false, ..f };
    match f.modal_type {
        PauseModalType::ReturnToTitle => (
            closed,
            AppState::Title,
            PauseEffects { next_state: Some(AppState::Title), close_modal: true, ..no_pause_effects() },
        ),
        PauseModalType::QuitToDesktop => (
            closed,
            return_state,
            PauseEffects { exit_app: true, close_modal: true, ..no_pause_effects() },
        ),
    }
}

/// Focus, return screen and effects after choosing a pause menu entry:
/// resume the game, open the settings (returning to the pause menu), or ask
/// for confirmation to return to the title or to quit, with "cancel"
/// focused.
pub open spec fn choose_pause_item(f: PauseMenuFocus, item: PauseMenuItem, return_state: AppState) -> (
    PauseMenuFocus,
    AppState,
    PauseEffects,
) {
    match item {
        PauseMenuItem::Resume => (
            f,
            return_state,
            PauseEffects { next_state: Some(AppState::InGame), ..no_pause_effects() },
        ),
        PauseMenuItem::Settings => (
            f,
            AppState::PauseMenu,
            PauseEffects { next_state: Some(AppState::Settings), ..no_pause_effects() },
        ),
        PauseMenuItem::ReturnToTitle => (
            PauseMenuFocus {
                modal_open: true,
                modal_type: PauseModalType::ReturnToTitle,
                modal_focus: PauseModalFocusItem::Cancel,
                ..f
            },
            return_state,
            PauseEffects { open_modal: Some(PauseModalType::ReturnToTitle), ..no_pause_effects() },
        ),
        PauseMenuItem::QuitToDesktop => (
            PauseMenuFocus {
                modal_open: true,
                modal_type: PauseModalType::QuitToDesktop,
                modal_focus: PauseModalFocusItem::Cancel,
                ..f
            },
            return_state,
            PauseEffects { open_modal: Some(PauseModalType::QuitToDesktop), ..no_pause_effects() },
        ),
    }
}

/// Focus, return screen and effects after one frame of keyboard input in
/// the pause menu.
///
/// With the window open: left/right/A/D/Tab switch buttons, Escape closes it
/// with "cancel" focused, Enter/Space carries out the focused button. In the
/// menu: up/W and down/S move round the entries (down wins), Enter/Space
/// chooses the focused entry, and Escape resumes the game.
pub open spec fn pause_nav(f: PauseMenuFocus, return_state: AppState, keys: KeyInput) -> (
    PauseMenuFocus,
    AppState,
    PauseEffects,
) {
    let jp = |k: Key| keys.is_just_pressed(k);
    let confirm = jp(Key::Enter) || jp(Key::Space);
    if f.modal_open {
        let toggle = jp(Key::ArrowLeft) || jp(Key::ArrowRight) || jp(Key::KeyA) || jp(Key::KeyD)
            || jp(Key::Tab);
        let m = if toggle {
            match f.modal_focus {
                PauseModalFocusItem::Confirm => PauseModalFocusItem::Cancel,
                PauseModalFocusItem::Cancel => PauseModalFocusItem::Confirm,
            }
        } else {
            f.modal_focus
        };
        let f1 = PauseMenuFocus { modal_focus: m, ..f };
        if jp(Key::Escape) {
            (
                PauseMenuFocus { modal_open: false, modal_focus: PauseModalFocusItem::Cancel, ..f1 },
                return_state,
                PauseEffects { close_modal: true, ..no_pause_effects() },
            )
        } else if confirm && m == PauseModalFocusItem::Confirm {
            confirm_pause_modal(f1, return_state)
        } else if confirm {
            (
                PauseMenuFocus { modal_open: false, ..f1 },
                return_state,
                PauseEffects { close_modal: true, ..no_pause_effects() },
            )
        } else {
            (f1, return_state, no_pause_effects())
        }
    } else {
        let idx = pause_index(f.current_item);
        let item = if jp(Key::ArrowDown) || jp(Key::KeyS) {
            pause_item_at((idx + 1) % 4)
        } else if jp(Key::ArrowUp) || jp(Key::KeyW) {
            pause_item_at(if idx == 0 { 3 } else { idx - 1 })
        } else {
            f.current_item
        };
        let f1 = PauseMenuFocus { current_item: item, ..f };
        let (f2, r2, e2) = if confirm {
            choose_pause_item(f1, item, return_state)
        } else {
            (f1, return_state, no_pause_effects())
        };
        if jp(Key::Escape) {
            (f2, r2, PauseEffects { next_state: Some(AppState::InGame), ..e2 })
        } else {
            (f2, r2, e2)
        }
    }
}

fn pause_index_exec(item: PauseMenuItem) -> (i: usize)
    ensures
        i == pause_index(item),
        i < 4,
{
    match item {
        PauseMenuItem::Resume => 0,
        PauseMenuItem::Settings => 1,
        PauseMenuItem::ReturnToTitle => 2,
        PauseMenuItem::QuitToDesktop => 3,
    }
}

fn confirm_pause_modal_exec(focus: &mut PauseMenuFocus, return_state: &mut AppState) -> (e: PauseEffects)
    ensures
        (*final(focus), *final(return_state), e) == confirm_pause_modal(*old(focus), *old(return_state)),
{
    let mut e = PauseEffects { next_state: None, exit_app: false, open_modal: None, close_modal: false };
    e.close_modal = true;
    focus.modal_open = false;
    match focus.modal_type {
        PauseModalType::ReturnToTitle => {
            *return_state = AppState::Title;
            e.next_state = Some(AppState::Title);
        },
        PauseModalType::QuitToDesktop => {
            e.exit_app = true;
        },
    }
    e
}

fn open_pause_modal(focus: &mut PauseMenuFocus, kind: PauseModalType, e: &mut PauseEffects)
    ensures
        *final(focus) == (PauseMenuFocus {
            modal_open: true,
            modal_type: kind,
            modal_focus: PauseModalFocusItem::Cancel,
            ..*old(focus)
        }),
        *final(e) == (PauseEffects { open_modal: Some(kind), ..*old(e) }),
{
    focus.modal_open = true;
    focus.modal_type = kind;
    focus.modal_focus = PauseModalFocusItem::Cancel;
    e.open_modal = Some(kind);
}

fn choose_pause_item_exec(focus: &mut PauseMenuFocus, return_state: &mut AppState) -> (e: PauseEffects)
    ensures
        (*final(focus), *final(return_state), e) == choose_pause_item(
            *old(focus),
            old(focus).current_item,
            *old(return_state),
        ),
{
    let mut e = PauseEffects { next_state: None, exit_app: false, open_modal: None, close_modal: false };
    match focus.current_item {
        PauseMenuItem::Resume => {
            e.next_state = Some(AppState::InGame);
        },
        PauseMenuItem::Settings => {
            *return_state = AppState::PauseMenu;
            e.next_state = Some(AppState::Settings);
        },
        PauseMenuItem::ReturnToTitle => {
            open_pause_modal(focus, PauseModalType::ReturnToTitle, &mut e);
        },
        PauseMenuItem::QuitToDesktop => {
            open_pause_modal(focus, PauseModalType::QuitToDesktop, &mut e);
        },
    }
    e
}

/// Handles one frame of keyboard input in the pause menu, as `pause_nav`
/// states; `return_state` is the screen that the settings' "back" leads to.
pub fn pause_keyboard_navigation(
    focus: &mut PauseMenuFocus,
    return_state: &mut AppState,
    keys: &KeyInput,
) -> (effects: PauseEffects)
    ensures
        (*final(focus), *final(return_state), effects) == pause_nav(
            *old(focus),
            *old(return_state),
            *keys,
        ),
{
    let confirm = keys.just_pressed(Key::Enter) || keys.just_pressed(Key::Space);
    if focus.modal_open {
        if keys.just_pressed(Key::ArrowLeft) || keys.just_pressed(Key::ArrowRight)
            || keys.just_pressed(Key::KeyA) || keys.just_pressed(Key::KeyD) || keys.just_pressed(
            Key::Tab,
        ) {
            focus.modal_focus = match focus.modal_focus {
                PauseModalFocusItem::Confirm => PauseModalFocusItem::Cancel,
                PauseModalFocusItem::Cancel => PauseModalFocusItem::Confirm,
            };
        }
        if keys.just_pressed(Key::Escape) {
            focus.modal_open = false;
            focus.modal_focus = PauseModalFocusItem::Cancel;
            return PauseEffects {
                next_state: None,
                exit_app: false,
                open_modal: None,
                close_modal: true,
            };
        }
        if confirm {
            match focus.modal_focus {
                PauseModalFocusItem::Confirm => {
                    return confirm_pause_modal_exec(focus, return_state);
                },
                PauseModalFocusItem::Cancel => {
                    focus.modal_open = false;
                    return PauseEffects {
                        next_state: None,
                        exit_app: false,
                        open_modal: None,
                        close_modal: true,
                    };
                },
            }
        }
        return PauseEffects { next_state: None, exit_app: false, open_modal: None, close_modal: false };
    }
    let current_idx = pause_index_exec(focus.current_item);
    if keys.just_pressed(Key::ArrowUp) || keys.just_pressed(Key::KeyW) {
        let prev_idx = if current_idx == 0 {
            PAUSE_MENU_ITEMS.len() - 1
        } else {
            current_idx - 1
        };
        focus.current_item = PAUSE_MENU_ITEMS[prev_idx];
    }
    if keys.just_pressed(Key::ArrowDown) || keys.just_pressed(Key::KeyS) {
        let next_idx = (current_idx + 1) % PAUSE_MENU_ITEMS.len();
        focus.current_item = PAUSE_MENU_ITEMS[next_idx];
    }
    let mut effects = if confirm {
        choose_pause_item_exec(focus, return_state)
    } else {
        PauseEffects { next_state: None, exit_app: false, open_modal: None, close_modal: false }
    };
    if keys.just_pressed(Key::Escape) {
        effects.next_state = Some(AppState::InGame);
    }
    effects
}

/// Buttons of the pause menu and of its confirmation window.
#[derive(Debug, Clone, Copy, PartialEq, Eq, Hash, Structural)]
pub enum PauseButtonAction {
    Resume,
    Settings,
    RequestReturnToTitle,
    RequestQuitToDesktop,
    ConfirmModal,
    CancelModal,
}

/// Focus, return screen and effects after a click on a pause menu button;
/// a request opens its window only when no window is present.
pub open spec fn pause_button(
    action: PauseButtonAction,
    f: PauseMenuFocus,
    return_state: AppState,
    modal_present: bool,
) -> (PauseMenuFocus, AppState, PauseEffects) {
    match action {
        PauseButtonAction::Resume => choose_pause_item(f, PauseMenuItem::Resume, return_state),
        PauseButtonAction::Settings => choose_pause_item(f, PauseMenuItem::Settings, return_state),
        PauseButtonAction::RequestReturnToTitle => if modal_present {
            (f, return_state, no_pause_effects())
        } else {
            choose_pause_item(f, PauseMenuItem::ReturnToTitle, return_state)
        },
        PauseButtonAction::RequestQuitToDesktop => if modal_present {
            (f, return_state, no_pause_effects())
        } else {
            choose_pause_item(f, PauseMenuItem::QuitToDesktop, return_state)
        },
        PauseButtonAction::ConfirmModal => confirm_pause_modal(f, return_state),
        PauseButtonAction::CancelModal => (
            PauseMenuFocus { modal_open: false, ..f },
            return_state,
            PauseEffects { close_modal: true, ..no_pause_effects() },
        ),
    }
}

/// Carries out a click on a pause menu button, as `pause_button` states.
pub fn pause_button_action(
    action: PauseButtonAction,
    focus: &mut PauseMenuFocus,
    return_state: &mut AppState,
    modal_present: bool,
) -> (effects: PauseEffects)
    ensures
        (*final(focus), *final(return_state), effects) == pause_button(
            action,
            *old(focus),
            *old(return_state),
            modal_present,
        ),
{
    let mut e = PauseEffects { next_state: None, exit_app: false, open_modal: None, close_modal: false };
    match action {
        PauseButtonAction::Resume => {
            e.next_state = Some(AppState::InGame);
        },
        PauseButtonAction::Settings => {
            *return_state = AppState::PauseMenu;
            e.next_state = Some(AppState::Settings);
        },
        PauseButtonAction::RequestReturnToTitle => {
            if !modal_present {
                open_pause_modal(focus, PauseModalType::ReturnToTitle, &mut e);
            }
        },
        PauseButtonAction::RequestQuitToDesktop => {
            if !modal_present {
                open_pause_modal(focus, PauseModalType::QuitToDesktop, &mut e);
            }
        },
        PauseButtonAction::ConfirmModal => {
            e = confirm_pause_modal_exec(focus, return_state);
        },
        PauseButtonAction::CancelModal => {
            e.close_modal = true;
            focus.modal_open = false;
        },
    }
    e
}

/// Quitting the game is only ever the result of confirming the quit window:
/// no key or button exits while the window is not open on "quit".
pub proof fn lemma_exit_needs_confirmation(
    f: PauseMenuFocus,
    return_state: AppState,
    keys: KeyInput,
    action: PauseButtonAction,
    modal_present: bool,
)
    ensures
        pause_nav(f, return_state, keys).2.exit_app ==> f.modal_open && f.modal_type
            == PauseModalType::QuitToDesktop,
        pause_button(action, f, return_state, modal_present).2.exit_app ==> action
            == PauseButtonAction::ConfirmModal && f.modal_type == PauseModalType::QuitToDesktop,
{
}

/// A window opened from the pause menu always starts on "cancel", so a
/// single confirm key cannot carry out what was just asked for.
pub proof fn lemma_modal_opens_on_cancel(f: PauseMenuFocus, return_state: AppState, keys: KeyInput)
    ensures
        pause_nav(f, return_state, keys).2.open_modal is Some ==> pause_nav(
            f,
            return_state,
            keys,
        ).0.modal_focus == PauseModalFocusItem::Cancel && pause_nav(f, return_state, keys).0.modal_open,
{
}

} // verus!
