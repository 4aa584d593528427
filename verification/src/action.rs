//! The fixed catalog of duel actions: each variant carries a damage value and
//! a signed mana cost (a negative cost is a gain).

use vstd::prelude::*;

verus! {

/// One move a wizard can choose on a turn. The set is closed by design.
#[derive(Clone, Copy, PartialEq, Eq, Structural, Debug)]
pub enum Action {
    /// Deals 2 damage, free.
    Strike,
    /// Deals 3 damage, costs 1 mana.
    Fireball,
    /// Deals 5 damage, costs 2 mana.
    LightningBolt,
    /// Blocks all incoming damage this turn, costs 1 mana.
    ManaShield,
    /// Sends an incoming attack back at its caster, costs 2 mana.
    Reflect,
    /// Restores mana (the game's concentrate gain), beyond the passive gain.
    Concentrate,
}

/// Damage dealt to an unshielded, non-reflecting opponent.
pub open spec fn damage_of(a: Action) -> nat {
    match a {
        Action::Strike => 2,
        Action::Fireball => 3,
        Action::LightningBolt => 5,
        Action::ManaShield => 0,
        Action::Reflect => 0,
        Action::Concentrate => 0,
    }
}

/// Mana the actor must pay to choose the action, as a non-negative magnitude.
pub open spec fn cost_of(a: Action) -> nat {
    match a {
        Action::Strike => 0,
        Action::Fireball => 1,
        Action::LightningBolt => 2,
        Action::ManaShield => 1,
        Action::Reflect => 2,
        Action::Concentrate => 0,
    }
}

/// The catalog's signed resource delta: positive is a cost paid, negative a
/// gain received. Concentrate is listed with its usual gain of 4; the gain a
/// game actually applies is its configured `concentrate_gain`.
pub open spec fn signed_mana_cost(a: Action) -> int {
    match a {
        Action::Concentrate => -4,
        _ => cost_of(a) as int,
    }
}

/// Whether the action is a damaging attack.
pub open spec fn is_attack(a: Action) -> bool {
    a == Action::Strike || a == Action::Fireball || a == Action::LightningBolt
}

/// An actor holding `mana` may legally choose `a` iff it can pay the cost.
pub open spec fn legal_for(a: Action, mana: u8) -> bool {
    cost_of(a) <= mana
}

impl Action {
    /// Damage this action deals to an unshielded, non-reflecting opponent.
    pub fn damage_amnt(&self) -> (d: u8)
        ensures
            d == damage_of(*self),
    {
        match self {
            Action::Strike => 2,
            Action::Fireball => 3,
            Action::LightningBolt => 5,
            Action::ManaShield => 0,
            Action::Reflect => 0,
            Action::Concentrate => 0,
        }
    }

    /// The signed mana cost of this action (negative: a gain).
    pub fn mana_cost(&self) -> (c: i8)
        ensures
            c as int == signed_mana_cost(*self),
    {
        match self {
            Action::Strike => 0,
            Action::Fireball => 1,
            Action::LightningBolt => 2,
            Action::ManaShield => 1,
            Action::Reflect => 2,
            Action::Concentrate => -4,
        }
    }
}

} // verus!
