//! The engine's guarantees, stated and proved once over the turn-resolution
//! model, for every state and every pair of actions.

use vstd::prelude::*;

use crate::action::{Action, cost_of, damage_of, is_attack, legal_for};
use crate::duel::{
    Game, Side, evaluated, incoming_damage, mana_after_actions, resolved, sat_add8, sat_sub,
    spec_completed,
};

verus! {

/// Saturation holds at the floor: however a turn resolves, no health or mana
/// value is ever negative (nor above the `u8` ceiling).
pub proof fn lemma_resolution_floor(g: Game, leftaction: Action, rightaction: Action)
    ensures
        0 <= resolved(g, leftaction, rightaction).left_wizard.health as int <= 255,
        0 <= resolved(g, leftaction, rightaction).right_wizard.health as int <= 255,
        0 <= resolved(g, leftaction, rightaction).left_wizard.mana as int <= 255,
        0 <= resolved(g, leftaction, rightaction).right_wizard.mana as int <= 255,
{
}

/// Legality is side-local: an actor holding `mana` may legally choose an
/// action costing `c` iff `mana >= c`, independent of anything the opponent
/// holds or chooses. (That no opponent value enters is visible in
/// `legal_for`'s signature, and in how `Game::tick` applies it to each side.)
pub proof fn lemma_legality_side_local(a: Action, mana: u8)
    ensures
        legal_for(a, mana) <==> mana >= cost_of(a),
{
}

/// Reflect redirection: a damaging left action against Reflect sends its full
/// damage back to the left attacker, and this interaction leaves the
/// reflecting defender's health untouched.
pub proof fn lemma_reflect_redirection(g: Game, attack: Action)
    requires
        is_attack(attack),
    ensures
        resolved(g, attack, Action::Reflect).left_wizard.health as int == sat_sub(
            g.left_wizard.health as int,
            damage_of(attack) as int,
        ),
        resolved(g, attack, Action::Reflect).right_wizard.health == g.right_wizard.health,
        resolved(g, Action::Reflect, attack).right_wizard.health as int == sat_sub(
            g.right_wizard.health as int,
            damage_of(attack) as int,
        ),
        resolved(g, Action::Reflect, attack).left_wizard.health == g.left_wizard.health,
{
}

/// ManaShield full block: a damaging left action against ManaShield changes
/// neither side's health.
pub proof fn lemma_mana_shield_blocks(g: Game, attack: Action)
    requires
        is_attack(attack),
    ensures
        resolved(g, attack, Action::ManaShield).left_wizard.health == g.left_wizard.health,
        resolved(g, attack, Action::ManaShield).right_wizard.health == g.right_wizard.health,
        resolved(g, Action::ManaShield, attack).left_wizard.health == g.left_wizard.health,
        resolved(g, Action::ManaShield, attack).right_wizard.health == g.right_wizard.health,
{
}

/// Reflect redirection at the level of one evaluation: a reflected attack
/// costs the attacker exactly its own damage, clamped at 0, and this
/// interaction leaves the defender's health, both sides' mana and the turn
/// counter untouched — from either side.
pub proof fn lemma_reflect_interaction(g: Game, attack: Action)
    requires
        is_attack(attack),
    ensures
        evaluated(g, Side::Left, attack, Action::Reflect).left_wizard.health as int == sat_sub(
            g.left_wizard.health as int,
            damage_of(attack) as int,
        ),
        evaluated(g, Side::Left, attack, Action::Reflect).right_wizard == g.right_wizard,
        evaluated(g, Side::Left, attack, Action::Reflect).left_wizard.mana == g.left_wizard.mana,
        evaluated(g, Side::Left, attack, Action::Reflect).turn_count == g.turn_count,
        evaluated(g, Side::Right, attack, Action::Reflect).right_wizard.health as int == sat_sub(
            g.right_wizard.health as int,
            damage_of(attack) as int,
        ),
        evaluated(g, Side::Right, attack, Action::Reflect).left_wizard == g.left_wizard,
        evaluated(g, Side::Right, attack, Action::Reflect).right_wizard.mana == g.right_wizard.mana,
        evaluated(g, Side::Right, attack, Action::Reflect).turn_count == g.turn_count,
{
}

/// ManaShield at the level of one evaluation: a blocked attack changes no
/// field of the state at all — from either side.
pub proof fn lemma_shield_interaction(g: Game, attack: Action)
    requires
        is_attack(attack),
    ensures
        evaluated(g, Side::Left, attack, Action::ManaShield) == g,
        evaluated(g, Side::Right, attack, Action::ManaShield) == g,
{
}

/// Concentrate at the level of one evaluation: the caster's mana becomes
/// exactly its old value plus the configured gain, clamped at the ceiling,
/// whatever the defender chose; every other field is untouched.
pub proof fn lemma_concentrate_interaction(g: Game, defender: Action)
    ensures
        evaluated(g, Side::Left, Action::Concentrate, defender).left_wizard.mana as int == sat_add8(
            g.left_wizard.mana as int,
            g.concentrate_gain as int,
        ),
        evaluated(g, Side::Left, Action::Concentrate, defender).left_wizard.health
            == g.left_wizard.health,
        evaluated(g, Side::Left, Action::Concentrate, defender).right_wizard == g.right_wizard,
        evaluated(g, Side::Left, Action::Concentrate, defender).turn_count == g.turn_count,
        evaluated(g, Side::Right, Action::Concentrate, defender).right_wizard.mana as int
            == sat_add8(g.right_wizard.mana as int, g.concentrate_gain as int),
        evaluated(g, Side::Right, Action::Concentrate, defender).right_wizard.health
            == g.right_wizard.health,
        evaluated(g, Side::Right, Action::Concentrate, defender).left_wizard == g.left_wizard,
        evaluated(g, Side::Right, Action::Concentrate, defender).turn_count == g.turn_count,
{
}

/// Concentrate restores exactly the configured gain to its caster before the
/// passive gain, whatever the opponent chooses; the caster's mana then ends
/// at that value plus the passive gain.
pub proof fn lemma_concentrate_gain(g: Game, opponent: Action)
    ensures
        mana_after_actions(g.left_wizard.mana, Action::Concentrate, g.concentrate_gain) == sat_add8(
            g.left_wizard.mana as int,
            g.concentrate_gain as int,
        ),
        resolved(g, Action::Concentrate, opponent).left_wizard.mana as int == sat_add8(
            sat_add8(g.left_wizard.mana as int, g.concentrate_gain as int),
            g.passive_gain as int,
        ),
{
}

/// Every resolved turn ends by adding the passive gain to both sides' mana,
/// after costs and Concentrate have been applied.
pub proof fn lemma_passive_gain(g: Game, leftaction: Action, rightaction: Action)
    ensures
        resolved(g, leftaction, rightaction).left_wizard.mana as int == sat_add8(
            mana_after_actions(g.left_wizard.mana, leftaction, g.concentrate_gain),
            g.passive_gain as int,
        ),
        resolved(g, leftaction, rightaction).right_wizard.mana as int == sat_add8(
            mana_after_actions(g.right_wizard.mana, rightaction, g.concentrate_gain),
            g.passive_gain as int,
        ),
{
}

/// Termination classification: a duel is over iff a health reached 0, drawn
/// when both did, otherwise won by the surviving side.
pub proof fn lemma_termination_classification(g: Game)
    ensures
        g.left_wizard.health == 0 && g.right_wizard.health == 0 ==> spec_completed(g) == (
            true,
            Side::Neither,
        ),
        g.left_wizard.health == 0 && g.right_wizard.health > 0 ==> spec_completed(g) == (
            true,
            Side::Right,
        ),
        g.left_wizard.health > 0 && g.right_wizard.health == 0 ==> spec_completed(g) == (
            true,
            Side::Left,
        ),
        g.left_wizard.health > 0 && g.right_wizard.health > 0 ==> spec_completed(g) == (
            false,
            Side::Neither,
        ),
{
}

/// Each side suffers damage from at most one source per turn: an attack its
/// opponent reflected back, or the opponent's own attack — never both.
pub proof fn lemma_single_damage_source(own: Action, opp: Action)
    ensures
        incoming_damage(own, opp) == 0 || incoming_damage(own, opp) == damage_of(own)
            || incoming_damage(own, opp) == damage_of(opp),
{
}

} // verus!
