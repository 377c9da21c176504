use vstd::prelude::*;
use crate::hex::fits_i32;

verus! {

/// The player faction's stockpiles, per-turn income and turn number.
#[derive(Debug, Clone, Copy, PartialEq, Eq, Structural)]
pub struct FactionResources {
    pub turn: u32,
    pub energy: i32,
    pub energy_per_turn: i32,
    pub production: i32,
    pub production_per_turn: i32,
    pub science: i32,
    pub science_per_turn: i32,
    pub food: i32,
    pub food_per_turn: i32,
}

/// The resources after one more turn: the turn number goes up by one and
/// each stockpile gains its income.
pub open spec fn advanced(r: FactionResources) -> FactionResources {
    FactionResources {
        turn: (r.turn + 1) as u32,
        energy: (r.energy + r.energy_per_turn) as i32,
        production: (r.production + r.production_per_turn) as i32,
        science: (r.science + r.science_per_turn) as i32,
        food: (r.food + r.food_per_turn) as i32,
        ..r
    }
}

/// A turn can be advanced without any number leaving its integer type.
pub open spec fn can_advance(r: FactionResources) -> bool {
    &&& r.turn < u32::MAX
    &&& fits_i32(r.energy + r.energy_per_turn)
    &&& fits_i32(r.production + r.production_per_turn)
    &&& fits_i32(r.science + r.science_per_turn)
    &&& fits_i32(r.food + r.food_per_turn)
}

/// The resources after `n` more turns.
pub open spec fn advanced_n(r: FactionResources, n: nat) -> FactionResources
    decreases n,
{
    if n == 0 {
        r
    } else {
        advanced(advanced_n(r, (n - 1) as nat))
    }
}

/// `n` turns can be advanced without any number leaving its integer type.
pub open spec fn can_advance_n(r: FactionResources, n: nat) -> bool
    decreases n,
{
    if n == 0 {
        true
    } else {
        can_advance_n(r, (n - 1) as nat) && can_advance(advanced_n(r, (n - 1) as nat))
    }
}

impl FactionResources {
    /// Turn 1 with 120 energy (+15), 50 production (+12), 30 science (+8)
    /// and 80 food (+10).
    pub fn new() -> (r: FactionResources)
        ensures
            r == (FactionResources {
                turn: 1,
                energy: 120,
                energy_per_turn: 15,
                production: 50,
                production_per_turn: 12,
                science: 30,
                science_per_turn: 8,
                food: 80,
                food_per_turn: 10,
            }),
    {
        FactionResources {
            turn: 1,
            energy: 120,
            energy_per_turn: 15,
            production: 50,
            production_per_turn: 12,
            science: 30,
            science_per_turn: 8,
            food: 80,
            food_per_turn: 10,
        }
    }

    /// Ends the turn: the turn number goes up by one and every stockpile
    /// gains its income.
    pub fn advance_turn(&mut self)
        requires
            can_advance(*old(self)),
        ensures
            *final(self) == advanced(*old(self)),
    {
        self.turn = self.turn + 1;
        self.energy = self.energy + self.energy_per_turn;
        self.production = self.production + self.production_per_turn;
        self.science = self.science + self.science_per_turn;
        self.food = self.food + self.food_per_turn;
    }

    /// Ends `count` turns in a row.
    pub fn advance_turns(&mut self, count: u32)
        requires
            can_advance_n(*old(self), count as nat),
        ensures
            *final(self) == advanced_n(*old(self), count as nat),
    {
        let mut k: u32 = 0;
        while k < count
            invariant
                k <= count,
                can_advance_n(*old(self), count as nat),
                *self == advanced_n(*old(self), k as nat),
            decreases count - k,
        {
            proof {
                lemma_can_advance_prefix(*old(self), (k + 1) as nat, count as nat);
            }
            self.advance_turn();
            k = k + 1;
        }
    }
}

impl Default for FactionResources {
    fn default() -> (r: FactionResources)
        ensures
            r == FactionResources::spec_initial(),
    {
        FactionResources::new()
    }
}

impl FactionResources {
    /// The resources a game starts with.
    pub open spec fn spec_initial() -> FactionResources {
        FactionResources {
            turn: 1,
            energy: 120,
            energy_per_turn: 15,
            production: 50,
            production_per_turn: 12,
            science: 30,
            science_per_turn: 8,
            food: 80,
            food_per_turn: 10,
        }
    }
}

proof fn lemma_can_advance_prefix(r: FactionResources, m: nat, n: nat)
    requires
        m <= n,
        can_advance_n(r, n),
    ensures
        can_advance_n(r, m),
    decreases n - m,
{
    if m < n {
        lemma_can_advance_prefix(r, m, (n - 1) as nat);
    }
}

/// Each turn adds exactly the income: after `n` turns every stockpile has
/// grown by `n` times its income, the turn number by `n`, and the income is
/// unchanged.
pub proof fn lemma_advance_n_closed_form(r: FactionResources, n: nat)
    requires
        can_advance_n(r, n),
    ensures
        advanced_n(r, n).turn == r.turn + n,
        advanced_n(r, n).energy == r.energy + n * r.energy_per_turn,
        advanced_n(r, n).production == r.production + n * r.production_per_turn,
        advanced_n(r, n).science == r.science + n * r.science_per_turn,
        advanced_n(r, n).food == r.food + n * r.food_per_turn,
        advanced_n(r, n).energy_per_turn == r.energy_per_turn,
        advanced_n(r, n).production_per_turn == r.production_per_turn,
        advanced_n(r, n).science_per_turn == r.science_per_turn,
        advanced_n(r, n).food_per_turn == r.food_per_turn,
    decreases n,
{
    if n > 0 {
        lemma_advance_n_closed_form(r, (n - 1) as nat);
        assert((n - 1) * r.energy_per_turn + r.energy_per_turn == n * r.energy_per_turn) by (nonlinear_arith);
        assert((n - 1) * r.production_per_turn + r.production_per_turn == n * r.production_per_turn) by (nonlinear_arith);
        assert((n - 1) * r.science_per_turn + r.science_per_turn == n * r.science_per_turn) by (nonlinear_arith);
        assert((n - 1) * r.food_per_turn + r.food_per_turn == n * r.food_per_turn) by (nonlinear_arith);
    }
}

} // verus!
