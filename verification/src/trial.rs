//! Trial runner and Monte Carlo driver.
//!
//! A trial plays one duel to completion, drawing both sides' actions
//! uniformly at random each turn and skipping turns an illegal choice
//! rejected. A duel in which nobody ever lands an attack need never end, so
//! a trial carries an explicit attempt budget and reports a duel still
//! running when the budget is spent. The driver runs many independent trials
//! and tallies their outcomes.

use vstd::prelude::*;

use rand::RngExt;

use crate::action::Action;
use crate::duel::{Game, Side, spec_completed};

verus! {

/// How a finished duel ended: one side won, or both wizards died at once.
#[derive(Clone, Copy, PartialEq, Eq, Structural, Debug)]
pub enum Outcome {
    LeftWins,
    RightWins,
    BothDead,
}

/// The outcome a state classifies as, if it is terminal.
pub open spec fn outcome_of(g: Game) -> Option<Outcome> {
    if g.left_wizard.health == 0 && g.right_wizard.health == 0 {
        Some(Outcome::BothDead)
    } else if g.left_wizard.health == 0 {
        Some(Outcome::RightWins)
    } else if g.right_wizard.health == 0 {
        Some(Outcome::LeftWins)
    } else {
        None
    }
}

/// Classify a state: `None` while both wizards live, otherwise who won, or
/// `BothDead` when the duel destroyed both at once.
pub fn outcome(g: &Game) -> (o: Option<Outcome>)
    ensures
        o == outcome_of(*g),
{
    if g.left_wizard.health == 0 && g.right_wizard.health == 0 {
        Some(Outcome::BothDead)
    } else if g.left_wizard.health == 0 {
        Some(Outcome::RightWins)
    } else if g.right_wizard.health == 0 {
        Some(Outcome::LeftWins)
    } else {
        None
    }
}

/// Relies on rand::RngExt::random_range over `0..n`: the sample always lies
/// below the upper bound. Which value comes back is chance; nothing more is
/// assumed of it.
#[verifier::external_body]
fn random_below(n: u8) -> (r: u8)
    requires
        0 < n,
    ensures
        r < n,
{
    rand::rng().random_range(0..n)
}

/// The catalog variant each drawn index stands for: the six indexes below
/// the draw's bound cover the whole catalog, one variant each.
pub open spec fn action_of_index(i: int) -> Action {
    if i == 0 {
        Action::ManaShield
    } else if i == 1 {
        Action::Reflect
    } else if i == 2 {
        Action::Concentrate
    } else if i == 3 {
        Action::Fireball
    } else if i == 4 {
        Action::Strike
    } else {
        Action::LightningBolt
    }
}

/// Map a drawn index to its catalog variant, exactly as `action_of_index`
/// says.
pub fn action_from_index(i: u8) -> (a: Action)
    ensures
        a == action_of_index(i as int),
{
    if i == 0 {
        Action::ManaShield
    } else if i == 1 {
        Action::Reflect
    } else if i == 2 {
        Action::Concentrate
    } else if i == 3 {
        Action::Fireball
    } else if i == 4 {
        Action::Strike
    } else {
        Action::LightningBolt
    }
}

/// Draw one action uniformly at random from the six-variant catalog. Which
/// index is drawn is chance, so nothing is promised of which variant comes
/// back; the index-to-variant map itself is `action_from_index`'s verified
/// contract.
pub fn select_action() -> Action {
    let r: u8 = random_below(6);
    action_from_index(r)
}

/// Play one duel from the given configuration: each turn, draw one random
/// action per side and resolve; a rejected turn is skipped and costs one
/// attempt like any other. Ends with the outcome and the final state once a
/// side dies, or `None` if the duel is still running after `max_attempts`
/// turns were attempted (a random policy need never attack, so an unbounded
/// run could never be shown to end).
pub fn run_trial(
    initial_health: u8,
    initial_mana: u8,
    passive_gain: u8,
    concentrate_gain: u8,
    max_attempts: u32,
) -> (r: Option<(Outcome, Game)>)
    ensures
        r matches Some(p) ==> outcome_of(p.1) == Some(p.0),
        r matches Some(p) ==> p.1.passive_gain == passive_gain && p.1.concentrate_gain
            == concentrate_gain,
        r matches Some(p) ==> p.1.turn_count as int <= max_attempts as int,
        initial_health == 0 ==> (r matches Some(p) && p.0 == Outcome::BothDead && p.1.turn_count
            == 0),
        initial_health > 0 && max_attempts == 0 ==> r is None,
{
    let mut game = Game::new(initial_health, initial_mana, passive_gain, concentrate_gain);
    let mut fuel: u32 = max_attempts;
    let mut done = game.game_completed();
    while !done.0 && fuel > 0
        invariant
            done == spec_completed(game),
            game.passive_gain == passive_gain,
            game.concentrate_gain == concentrate_gain,
            game.turn_count as int + fuel as int <= max_attempts as int,
            fuel <= max_attempts,
            initial_health == 0 ==> game.left_wizard.health == 0 && game.right_wizard.health == 0
                && game.turn_count == 0,
            initial_health > 0 && max_attempts == 0 ==> !spec_completed(game).0,
        decreases fuel,
    {
        fuel = fuel - 1;
        let leftaction = select_action();
        let rightaction = select_action();
        let _ = game.tick(leftaction, rightaction);
        done = game.game_completed();
    }
    if done.0 {
        let outcome = match done.1 {
            Side::Left => Outcome::LeftWins,
            Side::Right => Outcome::RightWins,
            Side::Neither => Outcome::BothDead,
        };
        Some((outcome, game))
    } else {
        None
    }
}

/// Aggregate counts over a batch of independent trials. `unfinished` counts
/// trials whose duel outlived the attempt budget.
#[derive(Clone, Copy, PartialEq, Eq, Structural, Debug)]
pub struct Tally {
    pub left_wins: u64,
    pub right_wins: u64,
    pub both_dead: u64,
    pub unfinished: u64,
}

/// Run `trials` independent duels under one configuration and tally every
/// outcome: the four counts always add up to the number of trials, and a
/// configuration whose wizards start dead yields only mutual-death results.
pub fn run_trials(
    trials: u64,
    initial_health: u8,
    initial_mana: u8,
    passive_gain: u8,
    concentrate_gain: u8,
    max_attempts: u32,
) -> (t: Tally)
    ensures
        t.left_wins as int + t.right_wins as int + t.both_dead as int + t.unfinished as int
            == trials as int,
        initial_health == 0 ==> t.both_dead as int == trials as int,
{
    let mut tally = Tally { left_wins: 0, right_wins: 0, both_dead: 0, unfinished: 0 };
    let mut i: u64 = 0;
    while i < trials
        invariant
            i <= trials,
            tally.left_wins as int + tally.right_wins as int + tally.both_dead as int
                + tally.unfinished as int == i as int,
            initial_health == 0 ==> tally.both_dead as int == i as int,
        decreases trials as int - i as int,
    {
        match run_trial(initial_health, initial_mana, passive_gain, concentrate_gain, max_attempts) {
            Some((Outcome::LeftWins, _)) => {
                tally.left_wins = tally.left_wins + 1;
            },
            Some((Outcome::RightWins, _)) => {
                tally.right_wins = tally.right_wins + 1;
            },
            Some((Outcome::BothDead, _)) => {
                tally.both_dead = tally.both_dead + 1;
            },
            None => {
                tally.unfinished = tally.unfinished + 1;
            },
        }
        i = i + 1;
    }
    tally
}

} // verus!
