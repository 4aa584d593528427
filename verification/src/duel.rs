//! Duel state and the per-turn resolution engine.
//!
//! A turn takes one action per side, validates both against each side's own
//! mana, and — only if both are legal — pays costs, evaluates both actions
//! against each other, applies the passive mana gain, and advances the turn
//! counter. An illegal action rejects the whole turn and leaves the state
//! untouched. All health and mana arithmetic saturates: at a floor of 0 and
//! at the `u8` ceiling.

use vstd::prelude::*;

use crate::action::{Action, cost_of, damage_of, is_attack, legal_for};

verus! {

/// Which wizard an effect targets; `Neither` also names the drawn outcome of
/// a finished duel in which both wizards died.
#[derive(Clone, Copy, PartialEq, Eq, Structural, Debug)]
pub enum Side {
    Left,
    Right,
    Neither,
}

/// One actor's snapshot: health and mana, both saturating at 0.
#[derive(Clone, Copy, PartialEq, Eq, Structural, Debug)]
pub struct Wizard {
    pub health: u8,
    pub mana: u8,
}

impl Wizard {
    /// A fresh wizard with the configured starting health and mana.
    pub fn new(health: u8, mana: u8) -> (w: Wizard)
        ensures
            w.health == health,
            w.mana == mana,
    {
        Wizard { health, mana }
    }
}

/// The rejection a turn ends in when a side chose an action it cannot pay for.
#[derive(Clone, Copy, PartialEq, Eq, Structural, Debug)]
pub struct IllegalMove {
    pub side: Side,
    pub action: Action,
}

/// The full duel state: both wizards, the turn counter, and the two
/// configured per-turn gains.
#[derive(Clone, Copy, PartialEq, Eq, Structural, Debug)]
pub struct Game {
    pub left_wizard: Wizard,
    pub right_wizard: Wizard,
    pub turn_count: u32,
    /// Mana both sides gain at the end of every resolved turn.
    pub passive_gain: u8,
    /// Mana the Concentrate action restores to its caster.
    pub concentrate_gain: u8,
}

/// Subtraction clamped at a floor of 0.
pub open spec fn sat_sub(a: int, b: int) -> int {
    if a - b <= 0 {
        0
    } else {
        a - b
    }
}

/// Addition clamped at the `u8` ceiling.
pub open spec fn sat_add8(a: int, b: int) -> int {
    if a + b >= 255 {
        255
    } else {
        a + b
    }
}

/// Damage the defender takes from `att` when answering with `def`: the full
/// damage unless the attack is reflected or blocked.
pub open spec fn direct_damage(att: Action, def: Action) -> nat {
    if is_attack(att) && def != Action::Reflect && def != Action::ManaShield {
        damage_of(att)
    } else {
        0
    }
}

/// Damage the attacker takes back from its own attack when the defender
/// chose Reflect.
pub open spec fn reflected_damage(att: Action, def: Action) -> nat {
    if is_attack(att) && def == Action::Reflect {
        damage_of(att)
    } else {
        0
    }
}

/// Total damage the side that chose `own` suffers in a turn whose opponent
/// chose `opp`: its own attack reflected back, plus the opponent's attack
/// landing on it. At most one of the two is nonzero.
pub open spec fn incoming_damage(own: Action, opp: Action) -> nat {
    reflected_damage(own, opp) + direct_damage(opp, own)
}

/// A side's mana after paying its action's cost and, for Concentrate,
/// receiving the configured gain — before the passive gain.
pub open spec fn mana_after_actions(mana: u8, own: Action, concentrate_gain: u8) -> int {
    let paid = sat_sub(mana as int, cost_of(own) as int);
    if own == Action::Concentrate {
        sat_add8(paid, concentrate_gain as int)
    } else {
        paid
    }
}

/// The state one evaluation direction ends in: the attacker's action lands
/// on the defender, comes back reflected, is blocked, or — for Concentrate —
/// restores the attacker's own mana. Costs, the passive gain and the turn
/// counter are not touched by an evaluation.
pub open spec fn evaluated(g: Game, attacker_side: Side, attacker: Action, defender: Action) -> Game {
    Game {
        left_wizard: Wizard {
            health: (if attacker_side == Side::Left {
                sat_sub(g.left_wizard.health as int, reflected_damage(attacker, defender) as int)
            } else {
                sat_sub(g.left_wizard.health as int, direct_damage(attacker, defender) as int)
            }) as u8,
            mana: (if attacker_side == Side::Left && attacker == Action::Concentrate {
                sat_add8(g.left_wizard.mana as int, g.concentrate_gain as int)
            } else {
                g.left_wizard.mana as int
            }) as u8,
        },
        right_wizard: Wizard {
            health: (if attacker_side == Side::Right {
                sat_sub(g.right_wizard.health as int, reflected_damage(attacker, defender) as int)
            } else {
                sat_sub(g.right_wizard.health as int, direct_damage(attacker, defender) as int)
            }) as u8,
            mana: (if attacker_side == Side::Right && attacker == Action::Concentrate {
                sat_add8(g.right_wizard.mana as int, g.concentrate_gain as int)
            } else {
                g.right_wizard.mana as int
            }) as u8,
        },
        turn_count: g.turn_count,
        passive_gain: g.passive_gain,
        concentrate_gain: g.concentrate_gain,
    }
}

/// The state a resolved turn ends in, given that both actions were legal:
/// costs paid, both actions evaluated against each other, the passive gain
/// applied to both sides, and the turn counter advanced.
pub open spec fn resolved(g: Game, leftaction: Action, rightaction: Action) -> Game {
    Game {
        left_wizard: Wizard {
            health: sat_sub(
                g.left_wizard.health as int,
                incoming_damage(leftaction, rightaction) as int,
            ) as u8,
            mana: sat_add8(
                mana_after_actions(g.left_wizard.mana, leftaction, g.concentrate_gain),
                g.passive_gain as int,
            ) as u8,
        },
        right_wizard: Wizard {
            health: sat_sub(
                g.right_wizard.health as int,
                incoming_damage(rightaction, leftaction) as int,
            ) as u8,
            mana: sat_add8(
                mana_after_actions(g.right_wizard.mana, rightaction, g.concentrate_gain),
                g.passive_gain as int,
            ) as u8,
        },
        turn_count: (g.turn_count + 1) as u32,
        passive_gain: g.passive_gain,
        concentrate_gain: g.concentrate_gain,
    }
}

/// Whether the duel is over, and who won: terminal iff a side's health is 0,
/// with `Neither` naming both a drawn finished duel and a duel still running.
pub open spec fn spec_completed(g: Game) -> (bool, Side) {
    if g.left_wizard.health == 0 && g.right_wizard.health == 0 {
        (true, Side::Neither)
    } else if g.left_wizard.health == 0 {
        (true, Side::Right)
    } else if g.right_wizard.health == 0 {
        (true, Side::Left)
    } else {
        (false, Side::Neither)
    }
}

impl Game {
    /// A fresh duel with the configured starting values and gains, at turn 0.
    pub fn new(initial_health: u8, initial_mana: u8, passive_gain: u8, concentrate_gain: u8) -> (g:
        Game)
        ensures
            g.left_wizard == (Wizard { health: initial_health, mana: initial_mana }),
            g.right_wizard == (Wizard { health: initial_health, mana: initial_mana }),
            g.turn_count == 0,
            g.passive_gain == passive_gain,
            g.concentrate_gain == concentrate_gain,
    {
        Game {
            left_wizard: Wizard::new(initial_health, initial_mana),
            right_wizard: Wizard::new(initial_health, initial_mana),
            turn_count: 0,
            passive_gain,
            concentrate_gain,
        }
    }

    /// Saturating damage to one wizard's health; `Neither` touches nothing.
    fn damage_wizard(&mut self, side: Side, damage: u8)
        ensures
            final(self).left_wizard.health == (if side == Side::Left {
                sat_sub(old(self).left_wizard.health as int, damage as int) as u8
            } else {
                old(self).left_wizard.health
            }),
            final(self).right_wizard.health == (if side == Side::Right {
                sat_sub(old(self).right_wizard.health as int, damage as int) as u8
            } else {
                old(self).right_wizard.health
            }),
            final(self).left_wizard.mana == old(self).left_wizard.mana,
            final(self).right_wizard.mana == old(self).right_wizard.mana,
            final(self).turn_count == old(self).turn_count,
            final(self).passive_gain == old(self).passive_gain,
            final(self).concentrate_gain == old(self).concentrate_gain,
    {
        if side == Side::Left {
            self.left_wizard.health = saturating_sub8(self.left_wizard.health, damage);
        } else if side == Side::Right {
            self.right_wizard.health = saturating_sub8(self.right_wizard.health, damage);
        }
    }

    /// Saturating mana gain for one wizard; `Neither` touches nothing.
    fn add_mana(&mut self, side: Side, mana: u8)
        ensures
            final(self).left_wizard.mana == (if side == Side::Left {
                sat_add8(old(self).left_wizard.mana as int, mana as int) as u8
            } else {
                old(self).left_wizard.mana
            }),
            final(self).right_wizard.mana == (if side == Side::Right {
                sat_add8(old(self).right_wizard.mana as int, mana as int) as u8
            } else {
                old(self).right_wizard.mana
            }),
            final(self).left_wizard.health == old(self).left_wizard.health,
            final(self).right_wizard.health == old(self).right_wizard.health,
            final(self).turn_count == old(self).turn_count,
            final(self).passive_gain == old(self).passive_gain,
            final(self).concentrate_gain == old(self).concentrate_gain,
    {
        if side == Side::Left {
            self.left_wizard.mana = saturating_add8(self.left_wizard.mana, mana);
        } else if side == Side::Right {
            self.right_wizard.mana = saturating_add8(self.right_wizard.mana, mana);
        }
    }

    /// Saturating mana payment for one wizard; `Neither` touches nothing.
    fn remove_mana(&mut self, side: Side, mana_cost: u8)
        ensures
            final(self).left_wizard.mana == (if side == Side::Left {
                sat_sub(old(self).left_wizard.mana as int, mana_cost as int) as u8
            } else {
                old(self).left_wizard.mana
            }),
            final(self).right_wizard.mana == (if side == Side::Right {
                sat_sub(old(self).right_wizard.mana as int, mana_cost as int) as u8
            } else {
                old(self).right_wizard.mana
            }),
            final(self).left_wizard.health == old(self).left_wizard.health,
            final(self).right_wizard.health == old(self).right_wizard.health,
            final(self).turn_count == old(self).turn_count,
            final(self).passive_gain == old(self).passive_gain,
            final(self).concentrate_gain == old(self).concentrate_gain,
    {
        if side == Side::Left {
            self.left_wizard.mana = saturating_sub8(self.left_wizard.mana, mana_cost);
        } else if side == Side::Right {
            self.right_wizard.mana = saturating_sub8(self.right_wizard.mana, mana_cost);
        }
    }

    /// Terminal test and outcome classification of the current state.
    pub fn game_completed(&self) -> (r: (bool, Side))
        ensures
            r == spec_completed(*self),
    {
        if (self.left_wizard.health == 0) && (self.right_wizard.health == 0) {
            return (true, Side::Neither);
        }
        if self.left_wizard.health == 0 {
            return (true, Side::Right);
        }
        if self.right_wizard.health == 0 {
            return (true, Side::Left);
        }
        (false, Side::Neither)
    }

    /// One direction of a turn's evaluation: the attacker's action lands on
    /// the defender, is reflected, is blocked, or — for Concentrate —
    /// restores the attacker's own mana. Costs are not touched here.
    fn evaluate(&mut self, attacker_side: Side, attacker: Action, defender: Action)
        requires
            attacker_side == Side::Left || attacker_side == Side::Right,
        ensures
            *final(self) == evaluated(*old(self), attacker_side, attacker, defender),
    {
        let defender_side = if attacker_side == Side::Left {
            Side::Right
        } else {
            Side::Left
        };
        match attacker {
            Action::Strike | Action::Fireball | Action::LightningBolt => {
                if defender == Action::Reflect {
                    self.damage_wizard(attacker_side, attacker.damage_amnt());
                } else if defender == Action::ManaShield {
                    ()
                } else {
                    self.damage_wizard(defender_side, attacker.damage_amnt());
                }
            },
            Action::Concentrate => {
                let gain: u8 = self.concentrate_gain;
                self.add_mana(attacker_side, gain);
            },
            _ => (),
        }
    }

    /// Resolve one turn. Both actions are validated against their own side's
    /// pre-turn mana; if either is illegal (the left side checked first) the
    /// turn is rejected whole and the state is unchanged. Otherwise the state
    /// advances exactly to `resolved`.
    pub fn tick(&mut self, leftaction: Action, rightaction: Action) -> (r: Result<(), IllegalMove>)
        requires
            old(self).turn_count < u32::MAX,
        ensures
            r is Ok <==> legal_for(leftaction, old(self).left_wizard.mana) && legal_for(
                rightaction,
                old(self).right_wizard.mana,
            ),
            r is Ok ==> *final(self) == resolved(*old(self), leftaction, rightaction),
            r is Err ==> *final(self) == *old(self),
            !legal_for(leftaction, old(self).left_wizard.mana) ==> r == Result::<
                (),
                IllegalMove,
            >::Err((IllegalMove { side: Side::Left, action: leftaction })),
            legal_for(leftaction, old(self).left_wizard.mana) && !legal_for(
                rightaction,
                old(self).right_wizard.mana,
            ) ==> r == Result::<(), IllegalMove>::Err(
                (IllegalMove { side: Side::Right, action: rightaction }),
            ),
    {
        // Filter illegal moves against each side's own pre-turn mana.
        match leftaction {
            Action::Fireball | Action::LightningBolt | Action::ManaShield | Action::Reflect => {
                if self.left_wizard.mana < leftaction.mana_cost() as u8 {
                    return Err(IllegalMove { side: Side::Left, action: leftaction });
                }
            },
            _ => (),
        }
        match rightaction {
            Action::Fireball | Action::LightningBolt | Action::ManaShield | Action::Reflect => {
                if self.right_wizard.mana < rightaction.mana_cost() as u8 {
                    return Err(IllegalMove { side: Side::Right, action: rightaction });
                }
            },
            _ => (),
        }
        if leftaction != Action::Concentrate {
            self.remove_mana(Side::Left, leftaction.mana_cost() as u8);
        }
        if rightaction != Action::Concentrate {
            self.remove_mana(Side::Right, rightaction.mana_cost() as u8);
        }
        self.evaluate(Side::Left, leftaction, rightaction);
        self.evaluate(Side::Right, rightaction, leftaction);
        let passive: u8 = self.passive_gain;
        self.add_mana(Side::Left, passive);
        self.add_mana(Side::Right, passive);
        self.turn_count = self.turn_count + 1;
        Ok(())
    }
}

/// `u8::saturating_sub`, written out so the clamp at 0 is verified.
fn saturating_sub8(a: u8, b: u8) -> (r: u8)
    ensures
        r as int == sat_sub(a as int, b as int),
{
    if a <= b {
        0
    } else {
        a - b
    }
}

/// `u8::saturating_add`, written out so the clamp at 255 is verified.
fn saturating_add8(a: u8, b: u8) -> (r: u8)
    ensures
        r as int == sat_add8(a as int, b as int),
{
    if a >= 255 - b {
        255
    } else {
        a + b
    }
}

} // verus!
