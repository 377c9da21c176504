use vstd::prelude::*;
use crate::app_state::AppState;
use crate::diplomacy::{diplomacy_toggle, DiplomacyModalState};
use crate::faction::FactionId;
use crate::input::InGameAction;
use crate::keys::{Key, KeyInput};
use crate::resources::{advanced, can_advance, FactionResources};
use crate::text::{push_decimal, push_int, string_push, string_append, int_text, two_digit_text};

verus! {

/// Buttons of the in-game heads-up display.
#[derive(Debug, Clone, Copy, PartialEq, Eq, Hash, Structural)]
pub enum HudAction {
    EndTurn,
    OpenDiplomacy,
    OpenMenu,
}

/// Values shown on the heads-up display.
#[derive(Debug, Clone, Copy, PartialEq, Eq, Hash, Structural)]
pub enum HudLabel {
    Turn,
    Energy,
    Production,
    Science,
    Food,
}

/// What a heads-up display button asks of the game.
#[derive(Debug, Clone, Copy, PartialEq, Eq, Structural)]
pub struct HudEffects {
    /// The screen to switch to, if any.
    pub next_state: Option<AppState>,
    /// Show the diplomacy window.
    pub show_diplomacy: bool,
}

/// Carries out a click on a heads-up display button: "end turn" advances the
/// turn, "diplomacy" toggles the diplomacy window, and "menu" opens the
/// pause menu, from which "back" returns to the game.
pub fn hud_button_action(
    action: HudAction,
    res: &mut FactionResources,
    return_state: &mut AppState,
    diplomacy: &mut DiplomacyModalState,
    player: FactionId,
) -> (e: HudEffects)
    requires
        action == HudAction::EndTurn ==> can_advance(*old(res)),
    ensures
        match action {
            HudAction::EndTurn => {
                &&& *final(res) == advanced(*old(res))
                &&& *final(return_state) == *old(return_state)
                &&& *final(diplomacy) == *old(diplomacy)
                &&& e == (HudEffects { next_state: None, show_diplomacy: false })
            },
            HudAction::OpenDiplomacy => {
                &&& *final(res) == *old(res)
                &&& *final(return_state) == *old(return_state)
                &&& (*final(diplomacy), e.show_diplomacy) == diplomacy_toggle(*old(diplomacy), player)
                &&& e.next_state is None
            },
            HudAction::OpenMenu => {
                &&& *final(res) == *old(res)
                &&& *final(return_state) == AppState::InGame
                &&& *final(diplomacy) == *old(diplomacy)
                &&& e == (HudEffects { next_state: Some(AppState::PauseMenu), show_diplomacy: false })
            },
        },
{
    match action {
        HudAction::EndTurn => {
            res.advance_turn();
            HudEffects { next_state: None, show_diplomacy: false }
        },
        HudAction::OpenDiplomacy => {
            let show = diplomacy.toggle(player);
            HudEffects { next_state: None, show_diplomacy: show }
        },
        HudAction::OpenMenu => {
            *return_state = AppState::InGame;
            HudEffects { next_state: Some(AppState::PauseMenu), show_diplomacy: false }
        },
    }
}

/// The heads-up display's own keys: Space ends the turn, Escape opens the
/// pause menu (from which "back" returns to the game). Returns the screen to
/// switch to, if any.
pub fn hud_keyboard_shortcuts(
    keys: &KeyInput,
    res: &mut FactionResources,
    return_state: &mut AppState,
) -> (next: Option<AppState>)
    requires
        keys.is_just_pressed(Key::Space) ==> can_advance(*old(res)),
    ensures
        *final(res) == (if keys.is_just_pressed(Key::Space) {
            advanced(*old(res))
        } else {
            *old(res)
        }),
        *final(return_state) == (if keys.is_just_pressed(Key::Escape) {
            AppState::InGame
        } else {
            *old(return_state)
        }),
        next == (if keys.is_just_pressed(Key::Escape) {
            Some(AppState::PauseMenu)
        } else {
            None
        }),
{
    if keys.just_pressed(Key::Space) {
        res.advance_turn();
    }
    if keys.just_pressed(Key::Escape) {
        *return_state = AppState::InGame;
        return Some(AppState::PauseMenu);
    }
    None
}

/// The text of a heads-up display value: "TURN" and the turn number with at
/// least two digits, or a stockpile followed by its income as "(+n)".
pub open spec fn hud_label_text(label: HudLabel, r: FactionResources) -> Seq<char> {
    let pair = |v: i32, inc: i32| int_text(v as int) + " (+"@ + int_text(inc as int) + ")"@;
    match label {
        HudLabel::Turn => "TURN "@ + two_digit_text(r.turn as nat),
        HudLabel::Energy => pair(r.energy, r.energy_per_turn),
        HudLabel::Production => pair(r.production, r.production_per_turn),
        HudLabel::Science => pair(r.science, r.science_per_turn),
        HudLabel::Food => pair(r.food, r.food_per_turn),
    }
}

fn push_stock_and_income(s: &mut String, v: i32, inc: i32)
    ensures
        final(s)@ == old(s)@ + (int_text(v as int) + " (+"@ + int_text(inc as int) + ")"@),
{
    push_int(s, v as i64);
    string_append(s, " (+");
    push_int(s, inc as i64);
    string_append(s, ")");
    assert(final(s)@ =~= old(s)@ + (int_text(v as int) + " (+"@ + int_text(inc as int) + ")"@));
}

/// The text shown for a heads-up display value, as `hud_label_text` states.
pub fn hud_label_string(label: HudLabel, r: &FactionResources) -> (t: String)
    ensures
        t@ == hud_label_text(label, *r),
{
    let mut s = String::new();
    match label {
        HudLabel::Turn => {
            string_append(&mut s, "TURN ");
            if r.turn < 10 {
                string_push(&mut s, '0');
            }
            push_decimal(&mut s, r.turn as u64);
            proof {
                reveal_strlit("TURN ");
            }
            assert(s@ =~= hud_label_text(label, *r));
        },
        HudLabel::Energy => {
            push_stock_and_income(&mut s, r.energy, r.energy_per_turn);
            assert(s@ =~= hud_label_text(label, *r));
        },
        HudLabel::Production => {
            push_stock_and_income(&mut s, r.production, r.production_per_turn);
            assert(s@ =~= hud_label_text(label, *r));
        },
        HudLabel::Science => {
            push_stock_and_income(&mut s, r.science, r.science_per_turn);
            assert(s@ =~= hud_label_text(label, *r));
        },
        HudLabel::Food => {
            push_stock_and_income(&mut s, r.food, r.food_per_turn);
            assert(s@ =~= hud_label_text(label, *r));
        },
    }
    s
}

/// Whether the hex grid and the tile yields are drawn on the map.
#[derive(Debug, Clone, Copy, PartialEq, Eq, Structural)]
pub struct MapDisplaySettings {
    pub show_grid: bool,
    pub show_yields: bool,
}

/// Number of times `a` occurs in `actions`.
pub open spec fn occurrences(actions: Seq<InGameAction>, a: InGameAction) -> nat
    decreases actions.len(),
{
    if actions.len() == 0 {
        0
    } else {
        occurrences(actions.drop_last(), a) + if actions.last() == a {
            1nat
        } else {
            0
        }
    }
}

impl MapDisplaySettings {
    /// Grid shown, yields hidden.
    pub fn new() -> (s: MapDisplaySettings)
        ensures
            s.show_grid,
            !s.show_yields,
    {
        MapDisplaySettings { show_grid: true, show_yields: false }
    }

    /// Applies the frame's map actions: each "toggle grid" flips the grid,
    /// each "toggle yields" flips the yields.
    pub fn apply_actions(&mut self, actions: &Vec<InGameAction>)
        ensures
            final(self).show_grid == (old(self).show_grid != (occurrences(actions@, InGameAction::ToggleGrid) % 2 == 1)),
            final(self).show_yields == (old(self).show_yields != (occurrences(actions@, InGameAction::ToggleYields) % 2 == 1)),
    {
        let mut i: usize = 0;
        while i < actions.len()
            invariant
                i <= actions@.len(),
                self.show_grid == (old(self).show_grid != (occurrences(actions@.take(i as int), InGameAction::ToggleGrid) % 2 == 1)),
                self.show_yields == (old(self).show_yields != (occurrences(actions@.take(i as int), InGameAction::ToggleYields) % 2 == 1)),
            decreases actions@.len() - i,
        {
            match actions[i] {
                InGameAction::ToggleGrid => {
                    self.show_grid = !self.show_grid;
                },
                InGameAction::ToggleYields => {
                    self.show_yields = !self.show_yields;
                },
                _ => {},
            }
            proof {
                assert(actions@.take(i + 1).drop_last() =~= actions@.take(i as int));
            }
            i = i + 1;
        }
        proof {
            assert(actions@.take(actions@.len() as int) =~= actions@);
        }
    }
}

impl Default for MapDisplaySettings {
    fn default() -> (s: MapDisplaySettings)
        ensures
            s.show_grid,
            !s.show_yields,
    {
        MapDisplaySettings::new()
    }
}

} // verus!
