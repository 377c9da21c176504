use vstd::prelude::*;
use crate::faction::{
    clamp_score, faction_index, lemma_score_bounded, FactionId,
    FactionManager,
};

verus! {

/// The open state of the diplomacy window and the faction it shows.
#[derive(Debug, Clone, Copy, PartialEq, Eq, Structural)]
pub struct DiplomacyModalState {
    pub is_open: bool,
    pub selected_target: Option<FactionId>,
}

impl DiplomacyModalState {
    /// Closed, with no faction selected.
    pub fn new() -> (s: DiplomacyModalState)
        ensures
            !s.is_open,
            s.selected_target is None,
    {
        DiplomacyModalState { is_open: false, selected_target: None }
    }
}

impl Default for DiplomacyModalState {
    fn default() -> (s: DiplomacyModalState)
        ensures
            !s.is_open,
            s.selected_target is None,
    {
        DiplomacyModalState::new()
    }
}

/// The first faction, in the order A to F, other than `player`.
pub open spec fn first_other_faction(player: FactionId) -> FactionId {
    if player == FactionId::Empire {
        FactionId::GrandDuchy
    } else {
        FactionId::Empire
    }
}

/// The window after the diplomacy key or button: it toggles, and opening
/// with no faction selected selects the first faction other than the
/// player's. Returns whether the window is to be shown.
pub open spec fn diplomacy_toggle(s: DiplomacyModalState, player: FactionId) -> (DiplomacyModalState, bool) {
    if s.is_open {
        (DiplomacyModalState { is_open: false, ..s }, false)
    } else if s.selected_target is None {
        (DiplomacyModalState { is_open: true, selected_target: Some(first_other_faction(player)) }, true)
    } else {
        (DiplomacyModalState { is_open: true, ..s }, true)
    }
}

impl DiplomacyModalState {
    /// Opens or closes the window, as `diplomacy_toggle` states; returns
    /// whether the window is now to be shown.
    pub fn toggle(&mut self, player: FactionId) -> (show: bool)
        ensures
            (*final(self), show) == diplomacy_toggle(*old(self), player),
    {
        self.is_open = !self.is_open;
        if self.is_open {
            if self.selected_target.is_none() {
                self.selected_target = Some(
                    if player == FactionId::Empire {
                        FactionId::GrandDuchy
                    } else {
                        FactionId::Empire
                    },
                );
            }
        }
        self.is_open
    }
}

/// Buttons of the diplomacy window.
#[derive(Debug, Clone, Copy, PartialEq, Eq, Structural)]
pub enum DiplomacyButtonAction {
    SelectFaction(FactionId),
    SendGift,
    ProposeNonAggression,
    Close,
}

/// What a diplomacy button did.
#[derive(Debug, Clone, Copy, PartialEq, Eq, Structural)]
pub enum DiplomacyOutcome {
    /// Nothing happened.
    Nothing,
    /// The window was closed.
    Closed,
    /// Another faction was selected; the window is to be redrawn.
    Selected(FactionId),
    /// A gift to one's own faction was refused.
    GiftToSelfRefused,
    /// A goodwill mission raised the relation with the faction.
    GiftSent(FactionId),
    /// The faction accepted a non-aggression pact.
    PactAccepted(FactionId),
    /// The faction held back its answer to a non-aggression pact.
    PactDeferred(FactionId),
}

/// Friendship gained by a goodwill mission.
pub open spec fn gift_bonus() -> int {
    15
}

/// Smallest score at which a faction accepts a non-aggression pact.
pub open spec fn pact_threshold() -> int {
    20
}

/// Carries out a click on a diplomacy button.
///
/// A gift to another faction raises the relation with it by 15 (clamped to
/// 100); a gift to one's own faction is refused. A pact is accepted when the
/// score is at least 20 and deferred below; proposing it to one's own faction
/// does nothing.
pub fn diplomacy_action(
    action: DiplomacyButtonAction,
    state: &mut DiplomacyModalState,
    player: FactionId,
    manager: &mut FactionManager,
) -> (outcome: DiplomacyOutcome)
    requires
        old(manager).wf(),
    ensures
        final(manager).wf(),
        forall|f: FactionId| #[trigger] final(manager).territory(f) == old(manager).territory(f),
        match action {
            DiplomacyButtonAction::Close => {
                &&& outcome == DiplomacyOutcome::Closed
                &&& *final(state) == (DiplomacyModalState { is_open: false, ..*old(state) })
                &&& forall|a: FactionId, b: FactionId| #[trigger] final(manager).score(a, b) == old(manager).score(a, b)
            },
            DiplomacyButtonAction::SelectFaction(f) => {
                &&& outcome == DiplomacyOutcome::Selected(f)
                &&& *final(state) == (DiplomacyModalState { selected_target: Some(f), ..*old(state) })
                &&& forall|a: FactionId, b: FactionId| #[trigger] final(manager).score(a, b) == old(manager).score(a, b)
            },
            DiplomacyButtonAction::SendGift => {
                &&& *final(state) == *old(state)
                &&& match old(state).selected_target {
                    None => outcome == DiplomacyOutcome::Nothing && forall|a: FactionId, b: FactionId| #[trigger] final(manager).score(a, b) == old(manager).score(a, b),
                    Some(t) => if t == player {
                        outcome == DiplomacyOutcome::GiftToSelfRefused && forall|a: FactionId, b: FactionId| #[trigger] final(manager).score(a, b) == old(manager).score(a, b)
                    } else {
                        &&& outcome == DiplomacyOutcome::GiftSent(t)
                        &&& final(manager).score(player, t) == clamp_score(old(manager).score(player, t) + gift_bonus())
                        &&& forall|a: FactionId, b: FactionId|
                            !((a == player && b == t) || (a == t && b == player)) ==> #[trigger] final(manager).score(a, b) == old(manager).score(a, b)
                    },
                }
            },
            DiplomacyButtonAction::ProposeNonAggression => {
                &&& *final(state) == *old(state)
                &&& forall|a: FactionId, b: FactionId| #[trigger] final(manager).score(a, b) == old(manager).score(a, b)
                &&& outcome == match old(state).selected_target {
                    None => DiplomacyOutcome::Nothing,
                    Some(t) => if t == player {
                        DiplomacyOutcome::Nothing
                    } else if old(manager).score(player, t) >= pact_threshold() {
                        DiplomacyOutcome::PactAccepted(t)
                    } else {
                        DiplomacyOutcome::PactDeferred(t)
                    },
                }
            },
        },
{
    match action {
        DiplomacyButtonAction::Close => {
            state.is_open = false;
            DiplomacyOutcome::Closed
        },
        DiplomacyButtonAction::SelectFaction(f) => {
            state.selected_target = Some(f);
            DiplomacyOutcome::Selected(f)
        },
        DiplomacyButtonAction::SendGift => {
            match state.selected_target {
                None => DiplomacyOutcome::Nothing,
                Some(target) => {
                    if target == player {
                        return DiplomacyOutcome::GiftToSelfRefused;
                    }
                    proof {
                        lemma_score_bounded(*manager, player, target);
                    }
                    manager.modify_relation(player, target, 15);
                    proof {
                        assert forall|a: FactionId, b: FactionId|
                            !((a == player && b == target) || (a == target && b == player)) implies #[trigger] manager.score(a, b)
                                == old(manager).score(a, b) by {
                            if a != b && crate::faction::pair_slot(a, b) == crate::faction::pair_slot(player, target) {
                                assert(faction_index(a) == faction_index(player) || faction_index(a) == faction_index(target));
                            }
                        }
                    }
                    DiplomacyOutcome::GiftSent(target)
                },
            }
        },
        DiplomacyButtonAction::ProposeNonAggression => {
            match state.selected_target {
                None => DiplomacyOutcome::Nothing,
                Some(target) => {
                    if target == player {
                        return DiplomacyOutcome::Nothing;
                    }
                    let score = manager.get_relation_score(player, target);
                    if score >= 20 {
                        DiplomacyOutcome::PactAccepted(target)
                    } else {
                        DiplomacyOutcome::PactDeferred(target)
                    }
                },
            }
        },
    }
}

/// The attitude a faction shows after a goodwill mission is never less
/// friendly than before.
pub proof fn lemma_gift_never_hurts(score: int)
    requires
        -100 <= score <= 100,
    ensures
        clamp_score(score + gift_bonus()) >= score,
        crate::faction::friendliness(crate::faction::relation_for_score(clamp_score(score + gift_bonus())))
            >= crate::faction::friendliness(crate::faction::relation_for_score(score)),
{
    crate::faction::lemma_relation_monotone(score, clamp_score(score + gift_bonus()));
}

} // verus!
