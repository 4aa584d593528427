use wizard_duel::action::Action;
use wizard_duel::duel::{Game, IllegalMove, Side, Wizard};

#[test]
fn catalog_damage_values() {
    assert_eq!(Action::Strike.damage_amnt(), 2);
    assert_eq!(Action::Fireball.damage_amnt(), 3);
    assert_eq!(Action::LightningBolt.damage_amnt(), 5);
    assert_eq!(Action::ManaShield.damage_amnt(), 0);
    assert_eq!(Action::Reflect.damage_amnt(), 0);
    assert_eq!(Action::Concentrate.damage_amnt(), 0);
}

#[test]
fn catalog_mana_costs() {
    assert_eq!(Action::Strike.mana_cost(), 0);
    assert_eq!(Action::Fireball.mana_cost(), 1);
    assert_eq!(Action::LightningBolt.mana_cost(), 2);
    assert_eq!(Action::ManaShield.mana_cost(), 1);
    assert_eq!(Action::Reflect.mana_cost(), 2);
    assert_eq!(Action::Concentrate.mana_cost(), -4);
}

#[test]
fn new_game_uses_configuration() {
    let game = Game::new(25, 1, 1, 4);
    assert_eq!(game.left_wizard, Wizard { health: 25, mana: 1 });
    assert_eq!(game.right_wizard, Wizard { health: 25, mana: 1 });
    assert_eq!(game.turn_count, 0);
    assert_eq!(game.passive_gain, 1);
    assert_eq!(game.concentrate_gain, 4);
}

#[test]
fn opening_strike_exchange() {
    let mut game = Game::new(25, 1, 1, 4);
    let r = game.tick(Action::Strike, Action::Strike);
    assert!(r.is_ok());
    assert_eq!(game.left_wizard, Wizard { health: 23, mana: 2 });
    assert_eq!(game.right_wizard, Wizard { health: 23, mana: 2 });
    assert_eq!(game.turn_count, 1);
    assert_eq!(game.game_completed(), (false, Side::Neither));
}

#[test]
fn fireball_without_mana_is_rejected_unchanged() {
    let mut game = Game::new(25, 0, 1, 4);
    let before = game;
    let r = game.tick(Action::Fireball, Action::Strike);
    assert_eq!(
        r,
        Err(IllegalMove { side: Side::Left, action: Action::Fireball })
    );
    assert_eq!(game, before);
    assert_eq!(game.turn_count, 0);
}

#[test]
fn right_side_illegal_move_is_rejected_unchanged() {
    let mut game = Game::new(25, 0, 1, 4);
    let before = game;
    let r = game.tick(Action::Strike, Action::Reflect);
    assert_eq!(
        r,
        Err(IllegalMove { side: Side::Right, action: Action::Reflect })
    );
    assert_eq!(game, before);
}

#[test]
fn both_sides_illegal_reports_left_first() {
    let mut game = Game::new(25, 0, 1, 4);
    let r = game.tick(Action::LightningBolt, Action::Fireball);
    assert_eq!(
        r,
        Err(IllegalMove { side: Side::Left, action: Action::LightningBolt })
    );
}

#[test]
fn legality_boundary_exact_mana_suffices() {
    let mut game = Game::new(25, 1, 1, 4);
    let r = game.tick(Action::Fireball, Action::Strike);
    assert!(r.is_ok());
    // Fireball: paid 1 mana, then the passive gain.
    assert_eq!(game.left_wizard.mana, 1);
    // Fireball lands for 3, Strike lands for 2.
    assert_eq!(game.left_wizard.health, 23);
    assert_eq!(game.right_wizard.health, 22);
}

#[test]
fn mana_shield_blocks_a_lethal_bolt() {
    let mut game = Game::new(5, 2, 1, 4);
    let r = game.tick(Action::LightningBolt, Action::ManaShield);
    assert!(r.is_ok());
    // Blocked: neither side's health moves, though the bolt would have killed.
    assert_eq!(game.left_wizard.health, 5);
    assert_eq!(game.right_wizard.health, 5);
    // Attacker paid 2 and regained the passive 1.
    assert_eq!(game.left_wizard.mana, 1);
    // Shielder paid 1 and regained the passive 1.
    assert_eq!(game.right_wizard.mana, 2);
    assert_eq!(game.game_completed(), (false, Side::Neither));
}

#[test]
fn reflected_bolt_kills_its_caster() {
    let mut game = Game::new(3, 2, 1, 4);
    let r = game.tick(Action::LightningBolt, Action::Reflect);
    assert!(r.is_ok());
    assert_eq!(game.left_wizard.health, 0);
    assert_eq!(game.right_wizard.health, 3);
    assert_eq!(game.game_completed(), (true, Side::Right));
}

#[test]
fn health_saturates_at_zero() {
    let mut game = Game::new(1, 0, 1, 4);
    let r = game.tick(Action::Strike, Action::Strike);
    assert!(r.is_ok());
    assert_eq!(game.left_wizard.health, 0);
    assert_eq!(game.right_wizard.health, 0);
    assert_eq!(game.game_completed(), (true, Side::Neither));
}

#[test]
fn mana_saturates_at_ceiling() {
    let mut game = Game::new(25, 255, 1, 4);
    let r = game.tick(Action::Concentrate, Action::Concentrate);
    assert!(r.is_ok());
    assert_eq!(game.left_wizard.mana, 255);
    assert_eq!(game.right_wizard.mana, 255);
}

#[test]
fn concentrate_gains_regardless_of_defender() {
    let mut game = Game::new(25, 0, 1, 4);
    let r = game.tick(Action::Concentrate, Action::Strike);
    assert!(r.is_ok());
    // Concentrate: +4, then the passive +1; the strike still lands.
    assert_eq!(game.left_wizard.mana, 5);
    assert_eq!(game.left_wizard.health, 23);
    assert_eq!(game.right_wizard.mana, 1);
    assert_eq!(game.right_wizard.health, 25);
}

#[test]
fn configured_passive_gain_reaches_both_sides() {
    let mut game = Game::new(25, 1, 2, 4);
    let r = game.tick(Action::Strike, Action::Strike);
    assert!(r.is_ok());
    assert_eq!(game.left_wizard.mana, 3);
    assert_eq!(game.right_wizard.mana, 3);
}

#[test]
fn configured_concentrate_gain_is_applied() {
    let mut game = Game::new(25, 0, 1, 7);
    let r = game.tick(Action::Concentrate, Action::Concentrate);
    assert!(r.is_ok());
    assert_eq!(game.left_wizard.mana, 8);
    assert_eq!(game.right_wizard.mana, 8);
}

#[test]
fn two_reflects_change_no_health() {
    let mut game = Game::new(25, 2, 1, 4);
    let r = game.tick(Action::Reflect, Action::Reflect);
    assert!(r.is_ok());
    assert_eq!(game.left_wizard.health, 25);
    assert_eq!(game.right_wizard.health, 25);
    // Both paid 2 and regained the passive 1.
    assert_eq!(game.left_wizard.mana, 1);
    assert_eq!(game.right_wizard.mana, 1);
}

#[test]
fn termination_classification_covers_all_cases() {
    let alive = Wizard { health: 9, mana: 0 };
    let dead = Wizard { health: 0, mana: 0 };
    let base = Game::new(9, 0, 1, 4);
    let both = Game { left_wizard: dead, right_wizard: dead, ..base };
    assert_eq!(both.game_completed(), (true, Side::Neither));
    let left_dead = Game { left_wizard: dead, right_wizard: alive, ..base };
    assert_eq!(left_dead.game_completed(), (true, Side::Right));
    let right_dead = Game { left_wizard: alive, right_wizard: dead, ..base };
    assert_eq!(right_dead.game_completed(), (true, Side::Left));
    let running = Game { left_wizard: alive, right_wizard: alive, ..base };
    assert_eq!(running.game_completed(), (false, Side::Neither));
}
