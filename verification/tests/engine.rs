use chronicler::attack::{DamageDice, WeaponStats};
use chronicler::checks::DiceOutcome;
use chronicler::engine::{DiceOutcomes, Lookups};
use chronicler::ids::CharacterId;
use chronicler::intent::{Advantage, Intent, Skill};
use chronicler::rules::{Effect, RulesEngine};
use chronicler::spells::SpellRolls;
use chronicler::world::{create_sample_fighter, GameWorld};

fn rolls(d20: (i32, i32)) -> DiceOutcomes {
    DiceOutcomes {
        d20,
        damage: 6,
        sneak_attack: 0,
        spell: SpellRolls { attack_d20: 10, damage: None, healing: None },
        death_save: 10,
        concentration: 10,
        initiative: 10,
        combat_initiatives: vec![],
        smite: 0,
        second_wind: 0,
        potion: 0,
        free_roll: DiceOutcome::Failed { error: "not rolled".to_string() },
    }
}

fn lookups(weapon: Option<WeaponStats>) -> Lookups {
    Lookups { weapon, spell: None, two_handed: false, strength_requirement: None, importance_shown: "0.5".to_string() }
}

fn world() -> GameWorld {
    GameWorld::new("Test", create_sample_fighter("Roland"))
}

#[test]
fn attacks_go_to_the_attack_rules() {
    let w = world();
    let me = w.player_character.id;
    let sword = WeaponStats { damage: DamageDice::Dice { count: 1, sides: 8 }, finesse: false, ranged: false };
    let intent = Intent::Attack { attacker_id: me, target_id: CharacterId(9), weapon_name: "Longsword".to_string(), advantage: Advantage::Normal };
    let r = RulesEngine::new().resolve(&w, intent, rolls((12, 3)), lookups(Some(sword)));
    assert_eq!(r.narrative, "Roland attacks with Longsword (roll: 16 vs AC 10)");
    assert_eq!(r.effects.len(), 3);
}

#[test]
fn checks_rests_and_spells_go_to_their_rules() {
    let w = world();
    let me = w.player_character.id;
    let engine = RulesEngine::new();
    let intent = Intent::SkillCheck { character_id: me, skill: Skill::Athletics, dc: 12, advantage: Advantage::Normal, description: "climb".to_string() };
    let r = engine.resolve(&w, intent, rolls((10, 3)), lookups(None));
    assert_eq!(r.narrative, "Roland succeeds (Athletics check: 12 vs DC 12)");
    let r = engine.resolve(&w, Intent::ShortRest, rolls((1, 1)), lookups(None));
    assert_eq!(r.narrative, "The party takes a short rest, spending 1 hour resting.");
    let intent = Intent::CastSpell { caster_id: me, spell_name: "Wish".to_string(), targets: vec![], spell_level: 9, target_names: vec![] };
    let r = engine.resolve(&w, intent, rolls((1, 1)), lookups(None));
    assert_eq!(r.narrative, "Unknown spell: 'Wish'. The spell is not in the database.");
}

#[test]
fn free_rolls_and_moves() {
    let w = world();
    let me = w.player_character.id;
    let engine = RulesEngine::new();
    let intent = Intent::RollDice { notation: "1d0".to_string(), purpose: "luck".to_string() };
    let r = engine.resolve(&w, intent, rolls((1, 1)), lookups(None));
    assert_eq!(r.narrative, "Failed to roll 1d0: not rolled");
    let intent = Intent::Move { character_id: me, destination: "north".to_string(), distance_feet: 30 };
    let r = engine.resolve(&w, intent, rolls((1, 1)), lookups(None));
    assert_eq!(r.narrative, "Intent not yet implemented");
    assert!(r.effects.is_empty());
    let r = engine.resolve(&w, Intent::EndCombat, rolls((1, 1)), lookups(None));
    assert!(matches!(r.effects[0], Effect::CombatEnded));
}
