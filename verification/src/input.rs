use vstd::prelude::*;
use crate::keys::{Key, KeyInput};

verus! {

/// Keyboard actions of the in-game map screen.
#[derive(Debug, Clone, Copy, PartialEq, Eq, Hash, Structural)]
pub enum InGameAction {
    EndTurn,
    ForceEndTurn,
    OpenPauseMenu,
    CancelOrDeselect,
    ToggleGrid,
    ToggleYields,
    NextUnit,
    PrevUnit,
    JumpToCapital,
    NextCity,
    PrevCity,
    ToggleCityModal,
    ToggleDiplomacyModal,
    UnitMove,
    UnitFortify,
    UnitAlert,
    UnitHeal,
    UnitSleep,
    UnitCharge,
    UnitRangedAttack,
    UnitTransfer,
    UnitWait,
    UnitDisband,
    CityProduceScout,
    CityProduceInfantry,
    CityProduceColonist,
    CityUpgradeOutpost,
}

/// `s` followed by `a` when `b` holds, else `s` unchanged.
pub open spec fn then_if(s: Seq<InGameAction>, b: bool, a: InGameAction) -> Seq<InGameAction> {
    if b {
        s.push(a)
    } else {
        s
    }
}

/// `s` followed by the actions of an open city or diplomacy window: Escape
/// cancels; in the city window U, 1/2/3 (also on the numpad) and C are its
/// shortcuts; in the diplomacy window F closes it.
pub open spec fn with_modal_actions(
    s: Seq<InGameAction>,
    keys: KeyInput,
    city_open: bool,
    diplomacy_open: bool,
) -> Seq<InGameAction> {
    let jp = |k: Key| keys.is_just_pressed(k);
    let s1 = then_if(s, jp(Key::Escape), InGameAction::CancelOrDeselect);
    let s2 = if city_open {
        let c1 = then_if(s1, jp(Key::KeyU), InGameAction::CityUpgradeOutpost);
        let c2 = then_if(c1, jp(Key::Digit1) || jp(Key::Numpad1), InGameAction::CityProduceScout);
        let c3 = then_if(
            c2,
            jp(Key::Digit2) || jp(Key::Numpad2),
            InGameAction::CityProduceInfantry,
        );
        let c4 = then_if(
            c3,
            jp(Key::Digit3) || jp(Key::Numpad3),
            InGameAction::CityProduceColonist,
        );
        then_if(c4, jp(Key::KeyC), InGameAction::ToggleCityModal)
    } else {
        s1
    };
    then_if(s2, diplomacy_open && jp(Key::KeyF), InGameAction::ToggleDiplomacyModal)
}

/// `s` followed by the unit shortcuts: Space waits, F fortifies, M moves,
/// A charges, R fires, O alerts, H heals, Z sleeps, T transfers, Delete
/// disbands.
pub open spec fn with_unit_actions(s: Seq<InGameAction>, keys: KeyInput) -> Seq<InGameAction> {
    let jp = |k: Key| keys.is_just_pressed(k);
    let s1 = then_if(s, jp(Key::Space), InGameAction::UnitWait);
    let s2 = then_if(s1, jp(Key::KeyF), InGameAction::UnitFortify);
    let s3 = then_if(s2, jp(Key::KeyM), InGameAction::UnitMove);
    let s4 = then_if(s3, jp(Key::KeyA), InGameAction::UnitCharge);
    let s5 = then_if(s4, jp(Key::KeyR), InGameAction::UnitRangedAttack);
    let s6 = then_if(s5, jp(Key::KeyO), InGameAction::UnitAlert);
    let s7 = then_if(s6, jp(Key::KeyH), InGameAction::UnitHeal);
    let s8 = then_if(s7, jp(Key::KeyZ), InGameAction::UnitSleep);
    let s9 = then_if(s8, jp(Key::KeyT), InGameAction::UnitTransfer);
    then_if(s9, jp(Key::Delete), InGameAction::UnitDisband)
}

/// `s` followed by the map view and navigation actions: C, G, Y, unit
/// cycling with Tab / Shift+Tab / . / , (next wins over previous), Home or
/// backslash for the capital, [ and ] for cities.
pub open spec fn with_navigation_actions(s: Seq<InGameAction>, keys: KeyInput) -> Seq<
    InGameAction,
> {
    let jp = |k: Key| keys.is_just_pressed(k);
    let shift = keys.is_pressed(Key::ShiftLeft) || keys.is_pressed(Key::ShiftRight);
    let next_unit = (jp(Key::Tab) && !shift) || jp(Key::Period);
    let prev_unit = (jp(Key::Tab) && shift) || jp(Key::Comma);
    let s1 = then_if(s, jp(Key::KeyC), InGameAction::ToggleCityModal);
    let s2 = then_if(s1, jp(Key::KeyG), InGameAction::ToggleGrid);
    let s3 = then_if(s2, jp(Key::KeyY), InGameAction::ToggleYields);
    let s4 = if next_unit {
        s3.push(InGameAction::NextUnit)
    } else {
        then_if(s3, prev_unit, InGameAction::PrevUnit)
    };
    let s5 = then_if(s4, jp(Key::Home) || jp(Key::Backslash), InGameAction::JumpToCapital);
    let s6 = then_if(s5, jp(Key::BracketLeft), InGameAction::PrevCity);
    then_if(s6, jp(Key::BracketRight), InGameAction::NextCity)
}

/// The actions that one frame of keyboard input triggers on the map screen,
/// in the order in which they are to be handled.
pub open spec fn ingame_actions(
    keys: KeyInput,
    debug_active: bool,
    city_modal_open: bool,
    diplomacy_modal_open: bool,
    has_selected_unit: bool,
    is_move_mode: bool,
) -> Seq<InGameAction> {
    let jp = |k: Key| keys.is_just_pressed(k);
    let shift = keys.is_pressed(Key::ShiftLeft) || keys.is_pressed(Key::ShiftRight);
    let enter = jp(Key::Enter) || jp(Key::NumpadEnter);
    if debug_active {
        Seq::empty()
    } else if city_modal_open || diplomacy_modal_open {
        with_modal_actions(Seq::empty(), keys, city_modal_open, diplomacy_modal_open)
    } else if jp(Key::Escape) {
        if is_move_mode || has_selected_unit {
            seq![InGameAction::CancelOrDeselect]
        } else {
            seq![InGameAction::OpenPauseMenu]
        }
    } else {
        let turn = if enter && shift {
            seq![InGameAction::ForceEndTurn]
        } else {
            then_if(Seq::empty(), enter, InGameAction::EndTurn)
        };
        let selection = if has_selected_unit {
            with_unit_actions(turn, keys)
        } else {
            then_if(
                then_if(turn, jp(Key::Space), InGameAction::EndTurn),
                jp(Key::KeyF),
                InGameAction::ToggleDiplomacyModal,
            )
        };
        with_navigation_actions(selection, keys)
    }
}

fn push_if(actions: &mut Vec<InGameAction>, b: bool, a: InGameAction)
    ensures
        final(actions)@ == then_if(old(actions)@, b, a),
{
    if b {
        actions.push(a);
    }
}

fn push_modal_actions(
    actions: &mut Vec<InGameAction>,
    keys: &KeyInput,
    city_modal_open: bool,
    diplomacy_modal_open: bool,
)
    ensures
        final(actions)@ == with_modal_actions(
            old(actions)@,
            *keys,
            city_modal_open,
            diplomacy_modal_open,
        ),
{
    push_if(actions, keys.just_pressed(Key::Escape), InGameAction::CancelOrDeselect);
    if city_modal_open {
        push_if(actions, keys.just_pressed(Key::KeyU), InGameAction::CityUpgradeOutpost);
        let one = keys.just_pressed(Key::Digit1) || keys.just_pressed(Key::Numpad1);
        push_if(actions, one, InGameAction::CityProduceScout);
        let two = keys.just_pressed(Key::Digit2) || keys.just_pressed(Key::Numpad2);
        push_if(actions, two, InGameAction::CityProduceInfantry);
        let three = keys.just_pressed(Key::Digit3) || keys.just_pressed(Key::Numpad3);
        push_if(actions, three, InGameAction::CityProduceColonist);
        push_if(actions, keys.just_pressed(Key::KeyC), InGameAction::ToggleCityModal);
    }
    let close_diplomacy = diplomacy_modal_open && keys.just_pressed(Key::KeyF);
    push_if(actions, close_diplomacy, InGameAction::ToggleDiplomacyModal);
}

fn push_unit_actions(actions: &mut Vec<InGameAction>, keys: &KeyInput)
    ensures
        final(actions)@ == with_unit_actions(old(actions)@, *keys),
{
    push_if(actions, keys.just_pressed(Key::Space), InGameAction::UnitWait);
    push_if(actions, keys.just_pressed(Key::KeyF), InGameAction::UnitFortify);
    push_if(actions, keys.just_pressed(Key::KeyM), InGameAction::UnitMove);
    push_if(actions, keys.just_pressed(Key::KeyA), InGameAction::UnitCharge);
    push_if(actions, keys.just_pressed(Key::KeyR), InGameAction::UnitRangedAttack);
    push_if(actions, keys.just_pressed(Key::KeyO), InGameAction::UnitAlert);
    push_if(actions, keys.just_pressed(Key::KeyH), InGameAction::UnitHeal);
    push_if(actions, keys.just_pressed(Key::KeyZ), InGameAction::UnitSleep);
    push_if(actions, keys.just_pressed(Key::KeyT), InGameAction::UnitTransfer);
    push_if(actions, keys.just_pressed(Key::Delete), InGameAction::UnitDisband);
}

fn push_navigation_actions(actions: &mut Vec<InGameAction>, keys: &KeyInput)
    ensures
        final(actions)@ == with_navigation_actions(old(actions)@, *keys),
{
    let is_shift = keys.pressed(Key::ShiftLeft) || keys.pressed(Key::ShiftRight);
    push_if(actions, keys.just_pressed(Key::KeyC), InGameAction::ToggleCityModal);
    push_if(actions, keys.just_pressed(Key::KeyG), InGameAction::ToggleGrid);
    push_if(actions, keys.just_pressed(Key::KeyY), InGameAction::ToggleYields);
    let is_next_unit = (keys.just_pressed(Key::Tab) && !is_shift) || keys.just_pressed(
        Key::Period,
    );
    let is_prev_unit = (keys.just_pressed(Key::Tab) && is_shift) || keys.just_pressed(Key::Comma);
    if is_next_unit {
        actions.push(InGameAction::NextUnit);
    } else if is_prev_unit {
        actions.push(InGameAction::PrevUnit);
    }
    let capital = keys.just_pressed(Key::Home) || keys.just_pressed(Key::Backslash);
    push_if(actions, capital, InGameAction::JumpToCapital);
    push_if(actions, keys.just_pressed(Key::BracketLeft), InGameAction::PrevCity);
    push_if(actions, keys.just_pressed(Key::BracketRight), InGameAction::NextCity);
}

/// Decides which in-game actions one frame of keyboard input triggers.
///
/// The debug console blocks every shortcut; an open city or diplomacy
/// window only takes its own keys; otherwise Escape first cancels a
/// selection or move, and opens the pause menu only when there is none.
pub fn evaluate_ingame_actions(
    keys: &KeyInput,
    debug_active: bool,
    city_modal_open: bool,
    diplomacy_modal_open: bool,
    has_selected_unit: bool,
    is_move_mode: bool,
) -> (actions: Vec<InGameAction>)
    ensures
        actions@ == ingame_actions(
            *keys,
            debug_active,
            city_modal_open,
            diplomacy_modal_open,
            has_selected_unit,
            is_move_mode,
        ),
{
    let mut actions: Vec<InGameAction> = Vec::new();
    if debug_active {
        return actions;
    }
    let is_shift = keys.pressed(Key::ShiftLeft) || keys.pressed(Key::ShiftRight);

    if city_modal_open || diplomacy_modal_open {
        push_modal_actions(&mut actions, keys, city_modal_open, diplomacy_modal_open);
        return actions;
    }
    if keys.just_pressed(Key::Escape) {
        if is_move_mode || has_selected_unit {
            actions.push(InGameAction::CancelOrDeselect);
        } else {
            actions.push(InGameAction::OpenPauseMenu);
        }
        assert(actions@ =~= ingame_actions(
            *keys,
            debug_active,
            city_modal_open,
            diplomacy_modal_open,
            has_selected_unit,
            is_move_mode,
        ));
        return actions;
    }
    let enter_pressed = keys.just_pressed(Key::Enter) || keys.just_pressed(Key::NumpadEnter);
    if enter_pressed && is_shift {
        actions.push(InGameAction::ForceEndTurn);
        assert(actions@ =~= seq![InGameAction::ForceEndTurn]);
    } else if enter_pressed {
        actions.push(InGameAction::EndTurn);
    }
    if has_selected_unit {
        push_unit_actions(&mut actions, keys);
    } else {
        push_if(&mut actions, keys.just_pressed(Key::Space), InGameAction::EndTurn);
        push_if(&mut actions, keys.just_pressed(Key::KeyF), InGameAction::ToggleDiplomacyModal);
    }
    push_navigation_actions(&mut actions, keys);
    actions
}

proof fn lemma_then_if_contains(s: Seq<InGameAction>, b: bool, a: InGameAction, x: InGameAction)
    ensures
        #[trigger] then_if(s, b, a).contains(x) ==> s.contains(x) || x == a,
{
    if b && s.push(a).contains(x) {
        let i = choose|i: int| 0 <= i < s.push(a).len() && s.push(a)[i] == x;
        if i < s.len() {
            assert(s[i] == x);
        }
    }
}

/// While the debug console is active, no key triggers an in-game action.
pub proof fn lemma_debug_blocks_all(
    keys: KeyInput,
    city_modal_open: bool,
    diplomacy_modal_open: bool,
    has_selected_unit: bool,
    is_move_mode: bool,
)
    ensures
        ingame_actions(
            keys,
            true,
            city_modal_open,
            diplomacy_modal_open,
            has_selected_unit,
            is_move_mode,
        ).len() == 0,
{
}

/// On the bare map, Escape does one thing only: it cancels the selection or
/// move mode when there is one, and opens the pause menu otherwise.
pub proof fn lemma_escape_hierarchy(keys: KeyInput, has_selected_unit: bool, is_move_mode: bool)
    requires
        keys.is_just_pressed(Key::Escape),
    ensures
        ingame_actions(keys, false, false, false, has_selected_unit, is_move_mode) == (if has_selected_unit
            || is_move_mode {
            seq![InGameAction::CancelOrDeselect]
        } else {
            seq![InGameAction::OpenPauseMenu]
        }),
{
}

/// While the city or diplomacy window is open, the map takes no turn,
/// pause, unit or map-view action.
pub proof fn lemma_modal_blocks_map(
    keys: KeyInput,
    city_modal_open: bool,
    diplomacy_modal_open: bool,
    has_selected_unit: bool,
    is_move_mode: bool,
    x: InGameAction,
)
    requires
        city_modal_open || diplomacy_modal_open,
        ingame_actions(
            keys,
            false,
            city_modal_open,
            diplomacy_modal_open,
            has_selected_unit,
            is_move_mode,
        ).contains(x),
    ensures
        x == InGameAction::CancelOrDeselect || x == InGameAction::CityUpgradeOutpost || x
            == InGameAction::CityProduceScout || x == InGameAction::CityProduceInfantry || x
            == InGameAction::CityProduceColonist || x == InGameAction::ToggleCityModal || x
            == InGameAction::ToggleDiplomacyModal,
{
    let jp = |k: Key| keys.is_just_pressed(k);
    let e = Seq::<InGameAction>::empty();
    let s1 = then_if(e, jp(Key::Escape), InGameAction::CancelOrDeselect);
    lemma_then_if_contains(e, jp(Key::Escape), InGameAction::CancelOrDeselect, x);
    let s2 = if city_modal_open {
        let c1 = then_if(s1, jp(Key::KeyU), InGameAction::CityUpgradeOutpost);
        let c2 = then_if(c1, jp(Key::Digit1) || jp(Key::Numpad1), InGameAction::CityProduceScout);
        let c3 = then_if(
            c2,
            jp(Key::Digit2) || jp(Key::Numpad2),
            InGameAction::CityProduceInfantry,
        );
        let c4 = then_if(
            c3,
            jp(Key::Digit3) || jp(Key::Numpad3),
            InGameAction::CityProduceColonist,
        );
        lemma_then_if_contains(s1, jp(Key::KeyU), InGameAction::CityUpgradeOutpost, x);
        lemma_then_if_contains(
            c1,
            jp(Key::Digit1) || jp(Key::Numpad1),
            InGameAction::CityProduceScout,
            x,
        );
        lemma_then_if_contains(
            c2,
            jp(Key::Digit2) || jp(Key::Numpad2),
            InGameAction::CityProduceInfantry,
            x,
        );
        lemma_then_if_contains(
            c3,
            jp(Key::Digit3) || jp(Key::Numpad3),
            InGameAction::CityProduceColonist,
            x,
        );
        lemma_then_if_contains(c4, jp(Key::KeyC), InGameAction::ToggleCityModal, x);
        then_if(c4, jp(Key::KeyC), InGameAction::ToggleCityModal)
    } else {
        s1
    };
    lemma_then_if_contains(
        s2,
        diplomacy_modal_open && jp(Key::KeyF),
        InGameAction::ToggleDiplomacyModal,
        x,
    );
}

/// Orders given to a selected unit.
pub open spec fn is_unit_order(x: InGameAction) -> bool {
    x == InGameAction::UnitMove || x == InGameAction::UnitFortify || x == InGameAction::UnitAlert
        || x == InGameAction::UnitHeal || x == InGameAction::UnitSleep || x
        == InGameAction::UnitCharge || x == InGameAction::UnitRangedAttack || x
        == InGameAction::UnitTransfer || x == InGameAction::UnitWait || x
        == InGameAction::UnitDisband
}

proof fn lemma_navigation_adds_no_unit_order(s: Seq<InGameAction>, keys: KeyInput, x: InGameAction)
    requires
        is_unit_order(x),
        !s.contains(x),
    ensures
        !with_navigation_actions(s, keys).contains(x),
{
    let jp = |k: Key| keys.is_just_pressed(k);
    let shift = keys.is_pressed(Key::ShiftLeft) || keys.is_pressed(Key::ShiftRight);
    let next_unit = (jp(Key::Tab) && !shift) || jp(Key::Period);
    let prev_unit = (jp(Key::Tab) && shift) || jp(Key::Comma);
    let s1 = then_if(s, jp(Key::KeyC), InGameAction::ToggleCityModal);
    let s2 = then_if(s1, jp(Key::KeyG), InGameAction::ToggleGrid);
    let s3 = then_if(s2, jp(Key::KeyY), InGameAction::ToggleYields);
    lemma_then_if_contains(s, jp(Key::KeyC), InGameAction::ToggleCityModal, x);
    lemma_then_if_contains(s1, jp(Key::KeyG), InGameAction::ToggleGrid, x);
    lemma_then_if_contains(s2, jp(Key::KeyY), InGameAction::ToggleYields, x);
    let s4 = if next_unit {
        lemma_then_if_contains(s3, true, InGameAction::NextUnit, x);
        s3.push(InGameAction::NextUnit)
    } else {
        lemma_then_if_contains(s3, prev_unit, InGameAction::PrevUnit, x);
        then_if(s3, prev_unit, InGameAction::PrevUnit)
    };
    let s5 = then_if(s4, jp(Key::Home) || jp(Key::Backslash), InGameAction::JumpToCapital);
    let s6 = then_if(s5, jp(Key::BracketLeft), InGameAction::PrevCity);
    lemma_then_if_contains(s4, jp(Key::Home) || jp(Key::Backslash), InGameAction::JumpToCapital, x);
    lemma_then_if_contains(s5, jp(Key::BracketLeft), InGameAction::PrevCity, x);
    lemma_then_if_contains(s6, jp(Key::BracketRight), InGameAction::NextCity, x);
}

/// Unit orders are only ever issued while a unit is selected.
pub proof fn lemma_unit_orders_need_selection(
    keys: KeyInput,
    debug_active: bool,
    city_modal_open: bool,
    diplomacy_modal_open: bool,
    is_move_mode: bool,
    x: InGameAction,
)
    requires
        is_unit_order(x),
    ensures
        !ingame_actions(
            keys,
            debug_active,
            city_modal_open,
            diplomacy_modal_open,
            false,
            is_move_mode,
        ).contains(x),
{
    let jp = |k: Key| keys.is_just_pressed(k);
    let r = ingame_actions(keys, debug_active, city_modal_open, diplomacy_modal_open, false, is_move_mode);
    if debug_active {
    } else if city_modal_open || diplomacy_modal_open {
        if r.contains(x) {
            lemma_modal_blocks_map(keys, city_modal_open, diplomacy_modal_open, false, is_move_mode, x);
        }
    } else if jp(Key::Escape) {
        if r.contains(x) {
            assert(r[0] == x);
        }
    } else {
        let shift = keys.is_pressed(Key::ShiftLeft) || keys.is_pressed(Key::ShiftRight);
        let enter = jp(Key::Enter) || jp(Key::NumpadEnter);
        let e = Seq::<InGameAction>::empty();
        let turn = if enter && shift {
            seq![InGameAction::ForceEndTurn]
        } else {
            then_if(e, enter, InGameAction::EndTurn)
        };
        lemma_then_if_contains(e, enter, InGameAction::EndTurn, x);
        if turn.contains(x) {
            assert(turn[0] == x);
        }
        let t1 = then_if(turn, jp(Key::Space), InGameAction::EndTurn);
        lemma_then_if_contains(turn, jp(Key::Space), InGameAction::EndTurn, x);
        lemma_then_if_contains(t1, jp(Key::KeyF), InGameAction::ToggleDiplomacyModal, x);
        let sel = then_if(t1, jp(Key::KeyF), InGameAction::ToggleDiplomacyModal);
        lemma_navigation_adds_no_unit_order(sel, keys, x);
    }
}

/// Exactly `k` went down during this frame.
pub open spec fn only_just_pressed(keys: KeyInput, k: Key) -> bool {
    forall|j: Key| #[trigger] keys.is_just_pressed(j) <==> j == k
}

/// With a unit selected, no window open and the console closed, each unit
/// key pressed alone issues exactly its own order: Space waits, F
/// fortifies, M moves, A charges, R fires, O goes on alert, H heals, Z
/// sleeps, T transfers and Delete disbands.
pub proof fn lemma_unit_keys(keys: KeyInput, is_move_mode: bool)
    ensures
        ({
            let acts = ingame_actions(keys, false, false, false, true, is_move_mode);
            &&& only_just_pressed(keys, Key::Space) ==> acts == seq![InGameAction::UnitWait]
            &&& only_just_pressed(keys, Key::KeyF) ==> acts == seq![InGameAction::UnitFortify]
            &&& only_just_pressed(keys, Key::KeyM) ==> acts == seq![InGameAction::UnitMove]
            &&& only_just_pressed(keys, Key::KeyA) ==> acts == seq![InGameAction::UnitCharge]
            &&& only_just_pressed(keys, Key::KeyR) ==> acts == seq![InGameAction::UnitRangedAttack]
            &&& only_just_pressed(keys, Key::KeyO) ==> acts == seq![InGameAction::UnitAlert]
            &&& only_just_pressed(keys, Key::KeyH) ==> acts == seq![InGameAction::UnitHeal]
            &&& only_just_pressed(keys, Key::KeyZ) ==> acts == seq![InGameAction::UnitSleep]
            &&& only_just_pressed(keys, Key::KeyT) ==> acts == seq![InGameAction::UnitTransfer]
            &&& only_just_pressed(keys, Key::Delete) ==> acts == seq![InGameAction::UnitDisband]
        }),
{
    let e: Seq<InGameAction> = Seq::empty();
    assert(keys.is_just_pressed(Key::Space) == keys.is_just_pressed(Key::Space));
    assert(keys.is_just_pressed(Key::Escape) == keys.is_just_pressed(Key::Escape));
    assert(keys.is_just_pressed(Key::Enter) == keys.is_just_pressed(Key::Enter));
    assert(keys.is_just_pressed(Key::NumpadEnter) == keys.is_just_pressed(Key::NumpadEnter));
    assert(keys.is_just_pressed(Key::KeyF) == keys.is_just_pressed(Key::KeyF));
    assert(keys.is_just_pressed(Key::KeyM) == keys.is_just_pressed(Key::KeyM));
    assert(keys.is_just_pressed(Key::KeyA) == keys.is_just_pressed(Key::KeyA));
    assert(keys.is_just_pressed(Key::KeyR) == keys.is_just_pressed(Key::KeyR));
    assert(keys.is_just_pressed(Key::KeyO) == keys.is_just_pressed(Key::KeyO));
    assert(keys.is_just_pressed(Key::KeyH) == keys.is_just_pressed(Key::KeyH));
    assert(keys.is_just_pressed(Key::KeyZ) == keys.is_just_pressed(Key::KeyZ));
    assert(keys.is_just_pressed(Key::KeyT) == keys.is_just_pressed(Key::KeyT));
    assert(keys.is_just_pressed(Key::Delete) == keys.is_just_pressed(Key::Delete));
    assert(keys.is_just_pressed(Key::KeyC) == keys.is_just_pressed(Key::KeyC));
    assert(keys.is_just_pressed(Key::KeyG) == keys.is_just_pressed(Key::KeyG));
    assert(keys.is_just_pressed(Key::KeyY) == keys.is_just_pressed(Key::KeyY));
    assert(keys.is_just_pressed(Key::Tab) == keys.is_just_pressed(Key::Tab));
    assert(keys.is_just_pressed(Key::Period) == keys.is_just_pressed(Key::Period));
    assert(keys.is_just_pressed(Key::Comma) == keys.is_just_pressed(Key::Comma));
    assert(keys.is_just_pressed(Key::Home) == keys.is_just_pressed(Key::Home));
    assert(keys.is_just_pressed(Key::Backslash) == keys.is_just_pressed(Key::Backslash));
    assert(keys.is_just_pressed(Key::BracketLeft) == keys.is_just_pressed(Key::BracketLeft));
    assert(keys.is_just_pressed(Key::BracketRight) == keys.is_just_pressed(Key::BracketRight));
    assert(e.push(InGameAction::UnitWait) =~= seq![InGameAction::UnitWait]);
    assert(e.push(InGameAction::UnitFortify) =~= seq![InGameAction::UnitFortify]);
    assert(e.push(InGameAction::UnitMove) =~= seq![InGameAction::UnitMove]);
    assert(e.push(InGameAction::UnitCharge) =~= seq![InGameAction::UnitCharge]);
    assert(e.push(InGameAction::UnitRangedAttack) =~= seq![InGameAction::UnitRangedAttack]);
    assert(e.push(InGameAction::UnitAlert) =~= seq![InGameAction::UnitAlert]);
    assert(e.push(InGameAction::UnitHeal) =~= seq![InGameAction::UnitHeal]);
    assert(e.push(InGameAction::UnitSleep) =~= seq![InGameAction::UnitSleep]);
    assert(e.push(InGameAction::UnitTransfer) =~= seq![InGameAction::UnitTransfer]);
    assert(e.push(InGameAction::UnitDisband) =~= seq![InGameAction::UnitDisband]);
}

/// On the bare map with no unit selected, each key pressed alone does its
/// one thing: Space ends the turn, F opens diplomacy, C the city window, G
/// toggles the grid, Y the yields, `.` and `,` cycle units forward and back,
/// Home or `\` jumps to the capital, `[` and `]` cycle cities; Escape opens
/// the pause menu; Enter and Tab without Shift end the turn and select the
/// next unit, and with Shift force the end of the turn and select the
/// previous unit.
pub proof fn lemma_map_keys(keys: KeyInput)
    ensures
        ({
            let acts = ingame_actions(keys, false, false, false, false, false);
            let shift = keys.is_pressed(Key::ShiftLeft) || keys.is_pressed(Key::ShiftRight);
            &&& only_just_pressed(keys, Key::Space) ==> acts == seq![InGameAction::EndTurn]
            &&& only_just_pressed(keys, Key::KeyF) ==> acts == seq![InGameAction::ToggleDiplomacyModal]
            &&& only_just_pressed(keys, Key::KeyC) ==> acts == seq![InGameAction::ToggleCityModal]
            &&& only_just_pressed(keys, Key::KeyG) ==> acts == seq![InGameAction::ToggleGrid]
            &&& only_just_pressed(keys, Key::KeyY) ==> acts == seq![InGameAction::ToggleYields]
            &&& only_just_pressed(keys, Key::Period) ==> acts == seq![InGameAction::NextUnit]
            &&& only_just_pressed(keys, Key::Comma) ==> acts == seq![InGameAction::PrevUnit]
            &&& only_just_pressed(keys, Key::Home) ==> acts == seq![InGameAction::JumpToCapital]
            &&& only_just_pressed(keys, Key::Backslash) ==> acts == seq![InGameAction::JumpToCapital]
            &&& only_just_pressed(keys, Key::BracketLeft) ==> acts == seq![InGameAction::PrevCity]
            &&& only_just_pressed(keys, Key::BracketRight) ==> acts == seq![InGameAction::NextCity]
            &&& only_just_pressed(keys, Key::Escape) ==> acts == seq![InGameAction::OpenPauseMenu]
            &&& only_just_pressed(keys, Key::Enter) ==> acts == (if shift {
                seq![InGameAction::ForceEndTurn]
            } else {
                seq![InGameAction::EndTurn]
            })
            &&& only_just_pressed(keys, Key::Tab) ==> acts == (if shift {
                seq![InGameAction::PrevUnit]
            } else {
                seq![InGameAction::NextUnit]
            })
        }),
{
    assert(keys.is_just_pressed(Key::ShiftLeft) == keys.is_just_pressed(Key::ShiftLeft));
    assert(keys.is_just_pressed(Key::ShiftRight) == keys.is_just_pressed(Key::ShiftRight));
    assert(keys.is_just_pressed(Key::Escape) == keys.is_just_pressed(Key::Escape));
    assert(keys.is_just_pressed(Key::Enter) == keys.is_just_pressed(Key::Enter));
    assert(keys.is_just_pressed(Key::NumpadEnter) == keys.is_just_pressed(Key::NumpadEnter));
    assert(keys.is_just_pressed(Key::Space) == keys.is_just_pressed(Key::Space));
    assert(keys.is_just_pressed(Key::Tab) == keys.is_just_pressed(Key::Tab));
    assert(keys.is_just_pressed(Key::Backspace) == keys.is_just_pressed(Key::Backspace));
    assert(keys.is_just_pressed(Key::Delete) == keys.is_just_pressed(Key::Delete));
    assert(keys.is_just_pressed(Key::Home) == keys.is_just_pressed(Key::Home));
    assert(keys.is_just_pressed(Key::Backquote) == keys.is_just_pressed(Key::Backquote));
    assert(keys.is_just_pressed(Key::Backslash) == keys.is_just_pressed(Key::Backslash));
    assert(keys.is_just_pressed(Key::BracketLeft) == keys.is_just_pressed(Key::BracketLeft));
    assert(keys.is_just_pressed(Key::BracketRight) == keys.is_just_pressed(Key::BracketRight));
    assert(keys.is_just_pressed(Key::Comma) == keys.is_just_pressed(Key::Comma));
    assert(keys.is_just_pressed(Key::Period) == keys.is_just_pressed(Key::Period));
    assert(keys.is_just_pressed(Key::ArrowUp) == keys.is_just_pressed(Key::ArrowUp));
    assert(keys.is_just_pressed(Key::ArrowDown) == keys.is_just_pressed(Key::ArrowDown));
    assert(keys.is_just_pressed(Key::ArrowLeft) == keys.is_just_pressed(Key::ArrowLeft));
    assert(keys.is_just_pressed(Key::ArrowRight) == keys.is_just_pressed(Key::ArrowRight));
    assert(keys.is_just_pressed(Key::Digit1) == keys.is_just_pressed(Key::Digit1));
    assert(keys.is_just_pressed(Key::Digit2) == keys.is_just_pressed(Key::Digit2));
    assert(keys.is_just_pressed(Key::Digit3) == keys.is_just_pressed(Key::Digit3));
    assert(keys.is_just_pressed(Key::Numpad1) == keys.is_just_pressed(Key::Numpad1));
    assert(keys.is_just_pressed(Key::Numpad2) == keys.is_just_pressed(Key::Numpad2));
    assert(keys.is_just_pressed(Key::Numpad3) == keys.is_just_pressed(Key::Numpad3));
    assert(keys.is_just_pressed(Key::KeyA) == keys.is_just_pressed(Key::KeyA));
    assert(keys.is_just_pressed(Key::KeyC) == keys.is_just_pressed(Key::KeyC));
    assert(keys.is_just_pressed(Key::KeyD) == keys.is_just_pressed(Key::KeyD));
    assert(keys.is_just_pressed(Key::KeyF) == keys.is_just_pressed(Key::KeyF));
    assert(keys.is_just_pressed(Key::KeyG) == keys.is_just_pressed(Key::KeyG));
    assert(keys.is_just_pressed(Key::KeyH) == keys.is_just_pressed(Key::KeyH));
    assert(keys.is_just_pressed(Key::KeyM) == keys.is_just_pressed(Key::KeyM));
    assert(keys.is_just_pressed(Key::KeyO) == keys.is_just_pressed(Key::KeyO));
    assert(keys.is_just_pressed(Key::KeyR) == keys.is_just_pressed(Key::KeyR));
    assert(keys.is_just_pressed(Key::KeyS) == keys.is_just_pressed(Key::KeyS));
    assert(keys.is_just_pressed(Key::KeyT) == keys.is_just_pressed(Key::KeyT));
    assert(keys.is_just_pressed(Key::KeyU) == keys.is_just_pressed(Key::KeyU));
    assert(keys.is_just_pressed(Key::KeyW) == keys.is_just_pressed(Key::KeyW));
    assert(keys.is_just_pressed(Key::KeyY) == keys.is_just_pressed(Key::KeyY));
    assert(keys.is_just_pressed(Key::KeyZ) == keys.is_just_pressed(Key::KeyZ));
    assert(Seq::<InGameAction>::empty().push(InGameAction::EndTurn) =~= seq![InGameAction::EndTurn]);
    assert(Seq::<InGameAction>::empty().push(InGameAction::ForceEndTurn) =~= seq![InGameAction::ForceEndTurn]);
    assert(Seq::<InGameAction>::empty().push(InGameAction::JumpToCapital) =~= seq![InGameAction::JumpToCapital]);
    assert(Seq::<InGameAction>::empty().push(InGameAction::NextCity) =~= seq![InGameAction::NextCity]);
    assert(Seq::<InGameAction>::empty().push(InGameAction::NextUnit) =~= seq![InGameAction::NextUnit]);
    assert(Seq::<InGameAction>::empty().push(InGameAction::OpenPauseMenu) =~= seq![InGameAction::OpenPauseMenu]);
    assert(Seq::<InGameAction>::empty().push(InGameAction::PrevCity) =~= seq![InGameAction::PrevCity]);
    assert(Seq::<InGameAction>::empty().push(InGameAction::PrevUnit) =~= seq![InGameAction::PrevUnit]);
    assert(Seq::<InGameAction>::empty().push(InGameAction::ToggleCityModal) =~= seq![InGameAction::ToggleCityModal]);
    assert(Seq::<InGameAction>::empty().push(InGameAction::ToggleDiplomacyModal) =~= seq![InGameAction::ToggleDiplomacyModal]);
    assert(Seq::<InGameAction>::empty().push(InGameAction::ToggleGrid) =~= seq![InGameAction::ToggleGrid]);
    assert(Seq::<InGameAction>::empty().push(InGameAction::ToggleYields) =~= seq![InGameAction::ToggleYields]);
}

/// While the city window is open, each of its keys pressed alone does its
/// one thing: U upgrades the outpost, 1, 2 and 3 (also on the numpad)
/// produce a scout, infantry and a colonist, C closes the window and Escape
/// cancels.
pub proof fn lemma_city_window_keys(keys: KeyInput, has_selected_unit: bool, is_move_mode: bool)
    ensures
        ({
            let acts = ingame_actions(keys, false, true, false, has_selected_unit, is_move_mode);
            &&& only_just_pressed(keys, Key::KeyU) ==> acts == seq![InGameAction::CityUpgradeOutpost]
            &&& only_just_pressed(keys, Key::Digit1) ==> acts == seq![InGameAction::CityProduceScout]
            &&& only_just_pressed(keys, Key::Numpad1) ==> acts == seq![InGameAction::CityProduceScout]
            &&& only_just_pressed(keys, Key::Digit2) ==> acts == seq![InGameAction::CityProduceInfantry]
            &&& only_just_pressed(keys, Key::Numpad2) ==> acts == seq![InGameAction::CityProduceInfantry]
            &&& only_just_pressed(keys, Key::Digit3) ==> acts == seq![InGameAction::CityProduceColonist]
            &&& only_just_pressed(keys, Key::Numpad3) ==> acts == seq![InGameAction::CityProduceColonist]
            &&& only_just_pressed(keys, Key::KeyC) ==> acts == seq![InGameAction::ToggleCityModal]
            &&& only_just_pressed(keys, Key::Escape) ==> acts == seq![InGameAction::CancelOrDeselect]
        }),
{
    assert(keys.is_just_pressed(Key::ShiftLeft) == keys.is_just_pressed(Key::ShiftLeft));
    assert(keys.is_just_pressed(Key::ShiftRight) == keys.is_just_pressed(Key::ShiftRight));
    assert(keys.is_just_pressed(Key::Escape) == keys.is_just_pressed(Key::Escape));
    assert(keys.is_just_pressed(Key::Enter) == keys.is_just_pressed(Key::Enter));
    assert(keys.is_just_pressed(Key::NumpadEnter) == keys.is_just_pressed(Key::NumpadEnter));
    assert(keys.is_just_pressed(Key::Space) == keys.is_just_pressed(Key::Space));
    assert(keys.is_just_pressed(Key::Tab) == keys.is_just_pressed(Key::Tab));
    assert(keys.is_just_pressed(Key::Backspace) == keys.is_just_pressed(Key::Backspace));
    assert(keys.is_just_pressed(Key::Delete) == keys.is_just_pressed(Key::Delete));
    assert(keys.is_just_pressed(Key::Home) == keys.is_just_pressed(Key::Home));
    assert(keys.is_just_pressed(Key::Backquote) == keys.is_just_pressed(Key::Backquote));
    assert(keys.is_just_pressed(Key::Backslash) == keys.is_just_pressed(Key::Backslash));
    assert(keys.is_just_pressed(Key::BracketLeft) == keys.is_just_pressed(Key::BracketLeft));
    assert(keys.is_just_pressed(Key::BracketRight) == keys.is_just_pressed(Key::BracketRight));
    assert(keys.is_just_pressed(Key::Comma) == keys.is_just_pressed(Key::Comma));
    assert(keys.is_just_pressed(Key::Period) == keys.is_just_pressed(Key::Period));
    assert(keys.is_just_pressed(Key::ArrowUp) == keys.is_just_pressed(Key::ArrowUp));
    assert(keys.is_just_pressed(Key::ArrowDown) == keys.is_just_pressed(Key::ArrowDown));
    assert(keys.is_just_pressed(Key::ArrowLeft) == keys.is_just_pressed(Key::ArrowLeft));
    assert(keys.is_just_pressed(Key::ArrowRight) == keys.is_just_pressed(Key::ArrowRight));
    assert(keys.is_just_pressed(Key::Digit1) == keys.is_just_pressed(Key::Digit1));
    assert(keys.is_just_pressed(Key::Digit2) == keys.is_just_pressed(Key::Digit2));
    assert(keys.is_just_pressed(Key::Digit3) == keys.is_just_pressed(Key::Digit3));
    assert(keys.is_just_pressed(Key::Numpad1) == keys.is_just_pressed(Key::Numpad1));
    assert(keys.is_just_pressed(Key::Numpad2) == keys.is_just_pressed(Key::Numpad2));
    assert(keys.is_just_pressed(Key::Numpad3) == keys.is_just_pressed(Key::Numpad3));
    assert(keys.is_just_pressed(Key::KeyA) == keys.is_just_pressed(Key::KeyA));
    assert(keys.is_just_pressed(Key::KeyC) == keys.is_just_pressed(Key::KeyC));
    assert(keys.is_just_pressed(Key::KeyD) == keys.is_just_pressed(Key::KeyD));
    assert(keys.is_just_pressed(Key::KeyF) == keys.is_just_pressed(Key::KeyF));
    assert(keys.is_just_pressed(Key::KeyG) == keys.is_just_pressed(Key::KeyG));
    assert(keys.is_just_pressed(Key::KeyH) == keys.is_just_pressed(Key::KeyH));
    assert(keys.is_just_pressed(Key::KeyM) == keys.is_just_pressed(Key::KeyM));
    assert(keys.is_just_pressed(Key::KeyO) == keys.is_just_pressed(Key::KeyO));
    assert(keys.is_just_pressed(Key::KeyR) == keys.is_just_pressed(Key::KeyR));
    assert(keys.is_just_pressed(Key::KeyS) == keys.is_just_pressed(Key::KeyS));
    assert(keys.is_just_pressed(Key::KeyT) == keys.is_just_pressed(Key::KeyT));
    assert(keys.is_just_pressed(Key::KeyU) == keys.is_just_pressed(Key::KeyU));
    assert(keys.is_just_pressed(Key::KeyW) == keys.is_just_pressed(Key::KeyW));
    assert(keys.is_just_pressed(Key::KeyY) == keys.is_just_pressed(Key::KeyY));
    assert(keys.is_just_pressed(Key::KeyZ) == keys.is_just_pressed(Key::KeyZ));
    assert(Seq::<InGameAction>::empty().push(InGameAction::CancelOrDeselect) =~= seq![InGameAction::CancelOrDeselect]);
    assert(Seq::<InGameAction>::empty().push(InGameAction::CityProduceColonist) =~= seq![InGameAction::CityProduceColonist]);
    assert(Seq::<InGameAction>::empty().push(InGameAction::CityProduceInfantry) =~= seq![InGameAction::CityProduceInfantry]);
    assert(Seq::<InGameAction>::empty().push(InGameAction::CityProduceScout) =~= seq![InGameAction::CityProduceScout]);
    assert(Seq::<InGameAction>::empty().push(InGameAction::CityUpgradeOutpost) =~= seq![InGameAction::CityUpgradeOutpost]);
    assert(Seq::<InGameAction>::empty().push(InGameAction::ToggleCityModal) =~= seq![InGameAction::ToggleCityModal]);
}

} // verus!
