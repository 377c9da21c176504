use vstd::prelude::*;
use crate::app_state::AppState;
use crate::faction::{faction_formal_title, faction_name_ja, FactionId, PlayerFaction};
use crate::text::{decimal, push_decimal, string_append};
use crate::map_settings::{MapConfig, MapSize, PlanetEnvironment};

verus! {

/// The faction highlighted on the faction selection screen.
#[derive(Debug, Clone, Copy, PartialEq, Eq, Structural)]
pub struct SelectedFactionMenu {
    pub faction: FactionId,
}

impl Default for SelectedFactionMenu {
    fn default() -> (m: SelectedFactionMenu)
        ensures
            m.faction == FactionId::Empire,
    {
        SelectedFactionMenu { faction: FactionId::Empire }
    }
}

/// Buttons of the faction selection screen.
#[derive(Debug, Clone, Copy, PartialEq, Eq, Structural)]
pub enum SelectAction {
    Choose(FactionId),
    ChooseEnvironment(PlanetEnvironment),
    ChooseSize(MapSize),
    RerollSeed,
    Confirm,
    Back,
}

/// What a faction selection button asks of the game.
#[derive(Debug, Clone, Copy, PartialEq, Eq, Structural)]
pub struct SelectEffects {
    /// The screen to switch to, if any.
    pub next_state: Option<AppState>,
    /// Draw a new map seed.
    pub reroll_seed: bool,
}

/// Carries out a click on the faction selection screen: choosing a faction,
/// environment or map size records it; "confirm" makes the highlighted
/// faction the player's and starts the game; "back" returns to the title;
/// "reroll" asks for a new seed.
pub fn faction_select_action(
    action: SelectAction,
    menu: &mut SelectedFactionMenu,
    player: &mut PlayerFaction,
    config: &mut MapConfig,
) -> (e: SelectEffects)
    ensures
        match action {
            SelectAction::Choose(f) => final(menu).faction == f && *final(player) == *old(player)
                && *final(config) == *old(config) && e == (SelectEffects { next_state: None, reroll_seed: false }),
            SelectAction::ChooseEnvironment(env) => *final(menu) == *old(menu) && *final(player)
                == *old(player) && *final(config) == (MapConfig { environment: env, ..*old(config) })
                && e == (SelectEffects { next_state: None, reroll_seed: false }),
            SelectAction::ChooseSize(size) => *final(menu) == *old(menu) && *final(player) == *old(player)
                && *final(config) == (MapConfig { size: size, ..*old(config) }) && e == (SelectEffects {
                next_state: None,
                reroll_seed: false,
            }),
            SelectAction::RerollSeed => *final(menu) == *old(menu) && *final(player) == *old(player)
                && *final(config) == *old(config) && e == (SelectEffects { next_state: None, reroll_seed: true }),
            SelectAction::Confirm => *final(menu) == *old(menu) && final(player).0 == old(menu).faction
                && *final(config) == *old(config) && e == (SelectEffects {
                next_state: Some(AppState::InGame),
                reroll_seed: false,
            }),
            SelectAction::Back => *final(menu) == *old(menu) && *final(player) == *old(player)
                && *final(config) == *old(config) && e == (SelectEffects {
                next_state: Some(AppState::Title),
                reroll_seed: false,
            }),
        },
{
    match action {
        SelectAction::Choose(f) => {
            menu.faction = f;
            SelectEffects { next_state: None, reroll_seed: false }
        },
        SelectAction::ChooseEnvironment(env) => {
            config.environment = env;
            SelectEffects { next_state: None, reroll_seed: false }
        },
        SelectAction::ChooseSize(size) => {
            config.size = size;
            SelectEffects { next_state: None, reroll_seed: false }
        },
        SelectAction::RerollSeed => SelectEffects { next_state: None, reroll_seed: true },
        SelectAction::Confirm => {
            player.0 = menu.faction;
            SelectEffects { next_state: Some(AppState::InGame), reroll_seed: false }
        },
        SelectAction::Back => SelectEffects { next_state: Some(AppState::Title), reroll_seed: false },
    }
}

/// The heading of the faction detail panel: the formal title, then the
/// short name in brackets.
pub open spec fn detail_title_text(f: FactionId) -> Seq<char> {
    faction_formal_title(f) + " ("@ + faction_name_ja(f) + ")"@
}

/// The heading of the faction detail panel, as `detail_title_text` states.
pub fn detail_title(f: FactionId) -> (t: String)
    ensures
        t@ == detail_title_text(f),
{
    let mut t = String::from_str(f.formal_title());
    string_append(&mut t, " (");
    string_append(&mut t, f.name_ja());
    string_append(&mut t, ")");
    t
}

/// The seed line of the selection screen.
pub open spec fn seed_text(seed: u32) -> Seq<char> {
    "🎲 SEED: "@ + decimal(seed as nat)
}

/// The seed line of the selection screen, as `seed_text` states.
pub fn seed_display(seed: u32) -> (t: String)
    ensures
        t@ == seed_text(seed),
{
    let mut t = String::from_str("🎲 SEED: ");
    push_decimal(&mut t, seed as u64);
    t
}

} // verus!
