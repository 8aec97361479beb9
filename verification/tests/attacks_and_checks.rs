use chronicler::abilities::Ability;
use chronicler::attack::{DamageDice, WeaponStats};
use chronicler::conditions::{ActiveCondition, Condition};
use chronicler::ids::CharacterId;
use chronicler::intent::{Advantage, Skill};
use chronicler::rules::{roll_with_fallback, Effect, RollResult, RulesEngine};
use chronicler::rules::DamageType;
use chronicler::world::{
    create_sample_fighter, start_combat, Armor, ArmorType, CharacterClass, ClassLevel, Combatant, GameWorld, HeldWeapon,
};

const LONGSWORD: WeaponStats = WeaponStats { damage: DamageDice::Dice { count: 1, sides: 8 }, finesse: false, ranged: false };
const DAGGER: WeaponStats = WeaponStats { damage: DamageDice::Dice { count: 1, sides: 4 }, finesse: true, ranged: false };
const LONGBOW: WeaponStats = WeaponStats { damage: DamageDice::Dice { count: 1, sides: 8 }, finesse: false, ranged: true };

fn fighter_world() -> GameWorld {
    GameWorld::new("Test", create_sample_fighter("Roland"))
}

/// A fight against one goblin of armor class 13; returns the goblin's id.
fn goblin_fight(world: &mut GameWorld) -> CharacterId {
    let goblin = CharacterId(7);
    let combat = start_combat(world);
    combat.combatants.push(Combatant {
        id: goblin,
        name: "Goblin".to_string(),
        initiative: 12,
        is_player: false,
        is_ally: false,
        current_hp: 7,
        max_hp: 7,
        armor_class: 13,
    });
    goblin
}

fn roll_of(e: &Effect) -> (String, i32, String) {
    match e {
        Effect::DiceRolled { roll, purpose } => (roll.expression.clone(), roll.total, purpose.clone()),
        _ => panic!("Expected DiceRolled"),
    }
}

#[test]
fn attack_that_reaches_the_armor_class_hits_and_rolls_damage() {
    let mut world = fighter_world();
    let goblin = goblin_fight(&mut world);
    let me = world.player_character.id;
    let r = RulesEngine::new().resolve_attack(&world, me, goblin, "Longsword", Advantage::Normal, Some(LONGSWORD), (11, 3), 6, 0);
    assert_eq!(r.narrative, "Roland attacks with Longsword (roll: 15 vs AC 13)");
    assert_eq!(r.effects.len(), 3);
    assert_eq!(roll_of(&r.effects[0]), ("1d20+4".to_string(), 15, "Attack with Longsword".to_string()));
    assert!(matches!(r.effects[1], Effect::AttackHit { attack_roll: 15, target_ac: 13, is_critical: false, .. }));
    assert_eq!(roll_of(&r.effects[2]), ("1d8+2".to_string(), 6, "Damage".to_string()));
}

#[test]
fn attack_below_the_armor_class_misses_and_stops() {
    let mut world = fighter_world();
    let goblin = goblin_fight(&mut world);
    let me = world.player_character.id;
    let r = RulesEngine::new().resolve_attack(&world, me, goblin, "Longsword", Advantage::Normal, Some(LONGSWORD), (8, 20), 6, 0);
    assert_eq!(r.narrative, "Roland attacks with Longsword (roll: 12 vs AC 13)");
    assert_eq!(r.effects.len(), 2);
    match &r.effects[1] {
        Effect::AttackMissed { attacker_name, target_name, attack_roll, target_ac } => {
            assert_eq!(attacker_name, "Roland");
            assert_eq!(target_name, "target");
            assert_eq!((*attack_roll, *target_ac), (12, 13));
        },
        _ => panic!("Expected AttackMissed"),
    }
}

#[test]
fn natural_one_misses_and_natural_twenty_crits_with_doubled_dice() {
    let mut world = fighter_world();
    let goblin = goblin_fight(&mut world);
    world.player_character.ability_scores.strength = 20;
    let me = world.player_character.id;
    let engine = RulesEngine::new();
    // A natural 1 misses even when the total reaches the armor class.
    world.combat.as_mut().unwrap().combatants[0].armor_class = 5;
    let r = engine.resolve_attack(&world, me, goblin, "Longsword", Advantage::Normal, Some(LONGSWORD), (1, 20), 6, 0);
    assert!(matches!(r.effects[1], Effect::AttackMissed { attack_roll: 8, target_ac: 5, .. }));

    world.combat.as_mut().unwrap().combatants[0].armor_class = 30;
    let r = engine.resolve_attack(&world, me, goblin, "Longsword", Advantage::Disadvantage, Some(LONGSWORD), (20, 20), 13, 0);
    assert!(matches!(r.effects[1], Effect::AttackHit { attack_roll: 27, target_ac: 30, is_critical: true, .. }));
    assert_eq!(roll_of(&r.effects[2]), ("2d8+5".to_string(), 13, "Damage".to_string()));
}

#[test]
fn advantage_keeps_the_higher_face_and_disadvantage_the_lower() {
    let mut world = fighter_world();
    let goblin = goblin_fight(&mut world);
    let me = world.player_character.id;
    let engine = RulesEngine::new();
    let r = engine.resolve_attack(&world, me, goblin, "Longsword", Advantage::Advantage, Some(LONGSWORD), (3, 12), 5, 0);
    assert!(matches!(r.effects[1], Effect::AttackHit { attack_roll: 16, .. }));
    let r = engine.resolve_attack(&world, me, goblin, "Longsword", Advantage::Disadvantage, Some(LONGSWORD), (3, 12), 5, 0);
    assert!(matches!(r.effects[1], Effect::AttackMissed { attack_roll: 7, .. }));
}

#[test]
fn unknown_targets_and_fights_not_started_have_armor_class_ten() {
    let world = fighter_world();
    let me = world.player_character.id;
    let r = RulesEngine::new().resolve_attack(&world, me, CharacterId(99), "Club", Advantage::Normal, None, (6, 6), 3, 0);
    assert_eq!(r.narrative, "Roland attacks with Club (roll: 10 vs AC 10)");
    assert_eq!(roll_of(&r.effects[2]), ("1+2".to_string(), 3, "Damage".to_string()));

    let mut world = fighter_world();
    goblin_fight(&mut world);
    let r = RulesEngine::new().resolve_attack(&world, me, CharacterId(99), "Club", Advantage::Normal, None, (5, 6), 3, 0);
    assert_eq!(r.narrative, "Roland attacks with Club (roll: 9 vs AC 10)");
    assert_eq!(r.effects.len(), 2);
}

#[test]
fn the_player_as_target_uses_the_player_armor_class() {
    let mut world = fighter_world();
    world.player_character.armor_class = 16;
    let me = world.player_character.id;
    let r = RulesEngine::new().resolve_attack(&world, me, me, "Fist", Advantage::Normal, None, (10, 1), 1, 0);
    assert_eq!(r.narrative, "Roland attacks with Fist (roll: 14 vs AC 16)");
}

#[test]
fn an_unconscious_attacker_cannot_attack() {
    let mut world = fighter_world();
    world.player_character.conditions.push(ActiveCondition { condition: Condition::Unconscious, source: "Sleep".to_string(), duration_rounds: None });
    let me = world.player_character.id;
    let r = RulesEngine::new().resolve_attack(&world, me, CharacterId(2), "Longsword", Advantage::Normal, Some(LONGSWORD), (20, 20), 9, 0);
    assert_eq!(r.narrative, "Roland is unconscious and cannot attack!");
    assert!(r.effects.is_empty());
}

#[test]
fn rage_adds_damage_to_strength_melee_only() {
    let mut world = fighter_world();
    world.player_character.class_resources.rage_active = true;
    world.player_character.class_resources.rage_damage_bonus = 2;
    let me = world.player_character.id;
    let engine = RulesEngine::new();
    let r = engine.resolve_attack(&world, me, CharacterId(5), "Greataxe", Advantage::Normal, Some(LONGSWORD), (15, 1), 9, 0);
    assert_eq!(roll_of(&r.effects[2]).0, "1d8+4");
    let r = engine.resolve_attack(&world, me, CharacterId(5), "Longbow", Advantage::Normal, Some(LONGBOW), (15, 1), 9, 0);
    assert_eq!(roll_of(&r.effects[2]).0, "1d8+2");
}

#[test]
fn sneak_attack_needs_a_rogue_a_finesse_weapon_and_advantage_or_an_ally() {
    let mut world = fighter_world();
    world.player_character.classes = vec![ClassLevel { class: CharacterClass::Rogue, level: 3, subclass: None }];
    let me = world.player_character.id;
    let engine = RulesEngine::new();

    let r = engine.resolve_attack(&world, me, CharacterId(5), "Dagger", Advantage::Advantage, Some(DAGGER), (2, 15), 3, 7);
    assert_eq!(r.effects.len(), 5);
    assert_eq!(roll_of(&r.effects[3]), ("2d6".to_string(), 7, "Sneak Attack".to_string()));
    assert!(matches!(r.effects[4], Effect::SneakAttackUsed { damage_dice: 2, .. }));

    let r = engine.resolve_attack(&world, me, CharacterId(5), "Dagger", Advantage::Normal, Some(DAGGER), (15, 2), 3, 7);
    assert_eq!(r.effects.len(), 3);

    let r = engine.resolve_attack(&world, me, CharacterId(5), "Longsword", Advantage::Advantage, Some(LONGSWORD), (15, 2), 3, 7);
    assert_eq!(r.effects.len(), 3);

    let r = engine.resolve_attack(&world, me, CharacterId(5), "Dagger", Advantage::Advantage, Some(DAGGER), (20, 2), 5, 12);
    assert_eq!(roll_of(&r.effects[3]), ("4d6".to_string(), 12, "Sneak Attack".to_string()));
}

#[test]
fn sneak_attack_with_an_ally_beside_the_target_once_per_turn() {
    let mut world = fighter_world();
    world.player_character.classes = vec![ClassLevel { class: CharacterClass::Rogue, level: 1, subclass: None }];
    let goblin = goblin_fight(&mut world);
    let me = world.player_character.id;
    world.combat.as_mut().unwrap().combatants.push(Combatant {
        id: CharacterId(8),
        name: "Ally".to_string(),
        initiative: 3,
        is_player: false,
        is_ally: true,
        current_hp: 5,
        max_hp: 5,
        armor_class: 12,
    });
    let engine = RulesEngine::new();
    let r = engine.resolve_attack(&world, me, goblin, "Dagger", Advantage::Normal, Some(DAGGER), (15, 2), 3, 4);
    assert_eq!(r.effects.len(), 5);
    assert_eq!(roll_of(&r.effects[3]).0, "1d6");

    world.combat.as_mut().unwrap().sneak_attack_used.push(me);
    let r = engine.resolve_attack(&world, me, goblin, "Dagger", Advantage::Normal, Some(DAGGER), (15, 2), 3, 4);
    assert_eq!(r.effects.len(), 3);
}

#[test]
fn roll_with_fallback_prefers_the_roll_then_the_fallback_then_one() {
    let roll = |e: &str, t: i32| RollResult { expression: e.to_string(), total: t, natural_20: false, natural_1: false };
    let r = roll_with_fallback("2d6+1", "1d4", Some(roll("2d6+1", 9)), Some(roll("1d4", 2)));
    assert_eq!((r.expression.as_str(), r.total), ("2d6+1", 9));
    let r = roll_with_fallback("bad", "1d4", None, Some(roll("1d4", 2)));
    assert_eq!((r.expression.as_str(), r.total), ("1d4", 2));
    let r = roll_with_fallback("bad", "worse", None, None);
    assert_eq!((r.expression.as_str(), r.total, r.natural_20, r.natural_1), ("worse", 1, false, false));
}

#[test]
fn ability_checks_add_the_ability_modifier() {
    let world = fighter_world();
    let me = world.player_character.id;
    let r = RulesEngine::new().resolve_ability_check(&world, me, Ability::Strength, 15, Advantage::Normal, "force the door", (13, 2));
    assert_eq!(r.narrative, "Roland succeeds (STR check: 15 vs DC 15)");
    assert_eq!(roll_of(&r.effects[0]), ("1d20+2".to_string(), 15, "STR check - force the door".to_string()));
    assert!(matches!(r.effects[1], Effect::CheckSucceeded { roll: 15, dc: 15, .. }));
    let r = RulesEngine::new().resolve_ability_check(&world, me, Ability::Charisma, 10, Advantage::Advantage, "charm", (4, 9));
    assert_eq!(r.narrative, "Roland fails (CHA check: 8 vs DC 10)");
    assert!(matches!(r.effects[1], Effect::CheckFailed { roll: 8, dc: 10, .. }));
}

#[test]
fn saving_throws_add_proficiency_when_proficient() {
    let world = fighter_world();
    let me = world.player_character.id;
    let r = RulesEngine::new().resolve_saving_throw(&world, me, Ability::Constitution, 14, Advantage::Normal, "Poison", (10, 1));
    assert_eq!(r.narrative, "Roland fails on CON saving throw (13 vs DC 14)");
    let r = RulesEngine::new().resolve_saving_throw(&world, me, Ability::Strength, 14, Advantage::Normal, "Grapple", (10, 1));
    assert_eq!(r.narrative, "Roland succeeds on STR saving throw (14 vs DC 14)");
    assert_eq!(roll_of(&r.effects[0]).2, "STR save vs Grapple");
}

#[test]
fn unconscious_creatures_fail_strength_and_dexterity_outright() {
    let mut world = fighter_world();
    world.player_character.conditions.push(ActiveCondition { condition: Condition::Unconscious, source: "Sleep".to_string(), duration_rounds: None });
    let me = world.player_character.id;
    let r = RulesEngine::new().resolve_saving_throw(&world, me, Ability::Dexterity, 5, Advantage::Normal, "Trap", (20, 20));
    assert_eq!(r.narrative, "Roland is unconscious and automatically fails the DEX saving throw!");
    assert!(matches!(r.effects[0], Effect::CheckFailed { roll: 0, dc: 5, .. }));
    let r = RulesEngine::new().resolve_ability_check(&world, me, Ability::Strength, 5, Advantage::Normal, "push", (20, 20));
    assert_eq!(r.narrative, "Roland is unconscious and automatically fails the STR check!");
    match &r.effects[0] {
        Effect::CheckFailed { check_type, roll, dc } => assert_eq!((check_type.as_str(), *roll, *dc), ("STR check", 0, 5)),
        _ => panic!("Expected CheckFailed"),
    }
    let r = RulesEngine::new().resolve_skill_check(&world, me, Skill::Athletics, 5, Advantage::Normal, "climb", (20, 20));
    assert_eq!(r.narrative, "Roland is unconscious and automatically fails the Athletics check!");
    let r = RulesEngine::new().resolve_skill_check(&world, me, Skill::Insight, 5, Advantage::Normal, "read", (20, 20));
    assert_eq!(r.narrative, "Roland succeeds (Insight check: 20 vs DC 5)");
}

#[test]
fn heavy_armor_hinders_stealth() {
    let mut world = fighter_world();
    world.player_character.skill_proficiencies.push(Skill::Stealth);
    world.player_character.equipment.armor =
        Some(Armor { name: "Plate".to_string(), armor_type: ArmorType::Heavy, base_ac: 18, stealth_disadvantage: true });
    let me = world.player_character.id;
    let r = RulesEngine::new().resolve_skill_check(&world, me, Skill::Stealth, 12, Advantage::Normal, "sneak", (15, 6));
    assert_eq!(r.narrative, "Roland fails (Stealth check: 10 vs DC 12) [armor disadvantage]");
    assert_eq!(roll_of(&r.effects[0]), ("1d20+4".to_string(), 10, "Stealth check - sneak".to_string()));
    let r = RulesEngine::new().resolve_skill_check(&world, me, Skill::Stealth, 12, Advantage::Advantage, "sneak", (15, 6));
    assert_eq!(r.narrative, "Roland succeeds (Stealth check: 19 vs DC 12)");
}

#[test]
fn attacks_fall_back_on_the_weapon_held() {
    let mut world = fighter_world();
    world.player_character.equipment.main_hand = Some(HeldWeapon {
        name: "Rapier".to_string(),
        damage: DamageDice::Dice { count: 1, sides: 8 },
        damage_type: DamageType::Piercing,
        finesse: true,
        ranged: false,
        two_handed: false,
    });
    world.player_character.ability_scores.dexterity = 18;
    let me = world.player_character.id;
    let engine = RulesEngine::new();
    let r = engine.resolve_attack(&world, me, CharacterId(5), "Rapier", Advantage::Normal, None, (10, 1), 7, 0);
    assert_eq!(r.narrative, "Roland attacks with Rapier (roll: 16 vs AC 10)");
    assert_eq!(roll_of(&r.effects[2]).0, "1d8+4");
    let r = engine.resolve_attack(&world, me, CharacterId(5), "Longsword", Advantage::Normal, Some(LONGSWORD), (10, 1), 7, 0);
    assert_eq!(roll_of(&r.effects[2]).0, "1d8+2");
    world.player_character.equipment.main_hand = None;
    let r = engine.resolve_attack(&world, me, CharacterId(5), "Fist", Advantage::Normal, None, (10, 1), 3, 0);
    assert_eq!(roll_of(&r.effects[2]).0, "1+2");
}
