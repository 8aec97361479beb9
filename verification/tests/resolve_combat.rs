use chronicler::abilities::Ability;
use chronicler::conditions::Condition;
use chronicler::ids::CharacterId;
use chronicler::rules::{CombatantInit, DamageType, Effect, RulesEngine};
use chronicler::spellcasting::{SlotInfo, SpellSlots, SpellcastingData};
use chronicler::world::{create_sample_fighter, start_combat, Character, Combatant, GameWorld};

fn fighter_world() -> GameWorld {
    GameWorld::new("Test", create_sample_fighter("Roland"))
}

fn downed_world(failures: u8) -> GameWorld {
    let mut world = fighter_world();
    world.player_character.hit_points.current = 0;
    world.player_character.death_saves.failures = failures;
    world
}

#[test]
fn damage_reports_the_hit_points_left() {
    let world = fighter_world();
    let id = world.player_character.id;
    let r = RulesEngine::new().resolve_damage(&world, id, 3, DamageType::Slashing, "Goblin");
    assert_eq!(r.narrative, "Roland takes 3 slashing damage from Goblin (HP: 8/11)");
    assert_eq!(r.effects.len(), 1);
    assert!(matches!(r.effects[0], Effect::HpChanged { amount: -3, new_current: 8, new_max: 11, dropped_to_zero: false, .. }));
}

#[test]
fn damage_marks_bloodied_and_critical_wounds() {
    let world = fighter_world();
    let id = world.player_character.id;
    let r = RulesEngine::new().resolve_damage(&world, id, 6, DamageType::Fire, "Torch");
    assert_eq!(r.narrative, "Roland takes 6 fire damage from Torch (HP: 5/11 - bloodied)");
    let r = RulesEngine::new().resolve_damage(&world, id, 9, DamageType::Cold, "Frost");
    assert_eq!(r.narrative, "Roland takes 9 cold damage from Frost (HP: 2/11 - critically wounded)");
}

#[test]
fn damage_to_zero_knocks_out_and_massive_damage_kills() {
    let world = fighter_world();
    let id = world.player_character.id;
    let r = RulesEngine::new().resolve_damage(&world, id, 11, DamageType::Piercing, "Arrow");
    assert_eq!(
        r.narrative,
        "Roland takes 11 piercing damage from Arrow (HP: 0/11 - UNCONSCIOUS! Character falls and begins making death saving throws)"
    );
    assert!(matches!(r.effects[0], Effect::HpChanged { new_current: 0, dropped_to_zero: true, .. }));
    assert_eq!(r.effects.len(), 1);

    let r = RulesEngine::new().resolve_damage(&world, id, 22, DamageType::Force, "Disintegrate");
    assert_eq!(
        r.narrative,
        "Roland takes 22 force damage from Disintegrate (INSTANT DEATH! Massive damage (11 overflow) exceeds max HP of 11)"
    );
    assert_eq!(r.effects.len(), 2);
    match &r.effects[1] {
        Effect::CharacterDied { cause, .. } => assert_eq!(cause, "Massive damage from Disintegrate"),
        _ => panic!("Expected CharacterDied"),
    }
}

#[test]
fn damage_while_unconscious_fails_death_saves() {
    let world = downed_world(0);
    let id = world.player_character.id;
    let r = RulesEngine::new().resolve_damage(&world, id, 4, DamageType::Bludgeoning, "Club");
    assert_eq!(r.narrative, "Roland takes 4 bludgeoning damage from Club while unconscious - death save failure! (Failures: 1/3)");
    assert!(matches!(r.effects[0], Effect::DeathSaveFailure { failures: 1, total_failures: 1, .. }));

    let world = downed_world(2);
    let r = RulesEngine::new().resolve_damage(&world, id, 4, DamageType::Bludgeoning, "Club");
    assert_eq!(r.narrative, "Roland takes 4 bludgeoning damage from Club while unconscious - death save failure! Total failures: 3 - Roland DIES!");
    assert_eq!(r.effects.len(), 2);
    assert!(matches!(r.effects[1], Effect::CharacterDied { .. }));

    let r = RulesEngine::new().resolve_damage(&world, id, 11, DamageType::Bludgeoning, "Ogre");
    assert_eq!(r.narrative, "Roland takes 11 bludgeoning damage from Ogre while unconscious - INSTANT DEATH! (Damage 11 >= max HP 11)");
    assert_eq!(r.effects.len(), 1);
}

#[test]
fn healing_reports_consciousness_and_full_health() {
    let world = downed_world(1);
    let id = world.player_character.id;
    let r = RulesEngine::new().resolve_heal(&world, id, 5, "Potion");
    assert_eq!(r.narrative, "Roland heals 5 hit points from Potion (HP: 5/11 - regains consciousness!)");
    assert!(matches!(r.effects[0], Effect::HpChanged { amount: 5, new_current: 5, .. }));

    let mut world = fighter_world();
    world.player_character.hit_points.current = 9;
    let r = RulesEngine::new().resolve_heal(&world, id, 10, "Cure Wounds");
    assert_eq!(r.narrative, "Roland heals 2 hit points from Cure Wounds (HP: 11/11 - fully healed)");
    world.player_character.hit_points.current = 3;
    let r = RulesEngine::new().resolve_heal(&world, id, 4, "Bandage");
    assert_eq!(r.narrative, "Roland heals 4 hit points from Bandage (HP: 7/11)");
}

#[test]
fn death_saves_follow_the_roll() {
    let engine = RulesEngine::new();
    let world = fighter_world();
    let id = world.player_character.id;
    let r = engine.resolve_death_save(&world, id, 15);
    assert_eq!(r.narrative, "Roland is not dying and doesn't need to make a death save.");
    assert!(r.effects.is_empty());

    let world = downed_world(0);
    let r = engine.resolve_death_save(&world, id, 20);
    assert_eq!(r.narrative, "Roland rolls a NATURAL 20 on their death save! They regain 1 HP and become conscious!");
    assert_eq!(r.effects.len(), 3);
    assert!(matches!(r.effects[1], Effect::HpChanged { amount: 1, new_current: 1, .. }));
    assert!(matches!(r.effects[2], Effect::ConditionRemoved { condition: Condition::Unconscious, .. }));

    let r = engine.resolve_death_save(&world, id, 12);
    assert_eq!(r.narrative, "Roland rolls 12 on their death save - SUCCESS! (1/3 successes)");
    assert!(matches!(r.effects[0], Effect::DeathSaveSuccess { roll: 12, total_successes: 1, .. }));

    let r = engine.resolve_death_save(&world, id, 1);
    assert_eq!(r.narrative, "Roland rolls a NATURAL 1 on their death save! That counts as TWO failures! (2/3)");

    let world = downed_world(2);
    let r = engine.resolve_death_save(&world, id, 9);
    assert_eq!(r.narrative, "Roland rolls 9 on their death save - FAILURE! With 3 failures, Roland has DIED!");
    assert_eq!(r.effects.len(), 2);
    assert!(matches!(r.effects[1], Effect::CharacterDied { .. }));

    let mut world = downed_world(0);
    world.player_character.death_saves.successes = 2;
    let r = engine.resolve_death_save(&world, id, 10);
    assert_eq!(r.narrative, "Roland rolls 10 on their death save - SUCCESS! With 3 successes, Roland is now STABLE!");
    assert!(matches!(r.effects[1], Effect::Stabilized { .. }));
}

#[test]
fn concentration_dc_is_half_the_damage_but_at_least_ten() {
    let engine = RulesEngine::new();
    let world = fighter_world();
    let id = world.player_character.id;
    // Constitution 13 (+1) plus proficiency (+2) for a proficient fighter.
    let r = engine.resolve_concentration_check(&world, id, 8, "Bless", 7);
    assert_eq!(
        r.narrative,
        "Roland makes a DC 10 Constitution save to maintain concentration on Bless. Rolls 10 - SUCCESS! Concentration maintained."
    );
    assert!(matches!(r.effects[0], Effect::ConcentrationMaintained { roll: 10, dc: 10, .. }));
    let r = engine.resolve_concentration_check(&world, id, 30, "Bless", 11);
    assert_eq!(
        r.narrative,
        "Roland makes a DC 15 Constitution save to maintain concentration on Bless. Rolls 14 - FAILED! Concentration is broken!"
    );
    assert!(matches!(r.effects[0], Effect::ConcentrationBroken { damage_taken: 30, roll: 14, dc: 15, .. }));
}

#[test]
fn initiative_adds_the_modifier() {
    let r = RulesEngine::new().resolve_roll_initiative(CharacterId(7), "Goblin", 2, false, 13);
    assert_eq!(r.narrative, "Goblin rolls initiative: 13 + 2 = 15");
    match &r.effects[0] {
        Effect::DiceRolled { roll, purpose } => {
            assert_eq!(roll.expression, "1d20");
            assert_eq!(roll.total, 13);
            assert_eq!(purpose, "Initiative");
        },
        _ => panic!("Expected DiceRolled"),
    }
    assert!(matches!(r.effects[1], Effect::InitiativeRolled { roll: 13, total: 15, .. }));
}

#[test]
fn next_turn_names_who_acts_and_wraps_the_round() {
    let engine = RulesEngine::new();
    let mut world = fighter_world();
    let r = engine.resolve_next_turn(&world);
    assert_eq!(r.narrative, "No combat in progress");
    assert!(r.effects.is_empty());

    let combat = start_combat(&mut world);
    for (i, name) in ["Roland", "Goblin"].iter().enumerate() {
        combat.combatants.push(Combatant {
            id: CharacterId(i as u128),
            name: name.to_string(),
            initiative: 10,
            is_player: i == 0,
            is_ally: i == 0,
            current_hp: 7,
            max_hp: 7,
            armor_class: 12,
        });
    }
    let r = engine.resolve_next_turn(&world);
    assert_eq!(r.narrative, "Next turn: Goblin (Round 1)");
    world.combat.as_mut().unwrap().turn_index = 1;
    let r = engine.resolve_next_turn(&world);
    assert_eq!(r.narrative, "Next turn: Roland (Round 2)");
    assert!(matches!(r.effects[0], Effect::TurnAdvanced { round: 2, .. }));
}

#[test]
fn experience_levels_up_at_thresholds() {
    let engine = RulesEngine::new();
    let mut world = fighter_world();
    let r = engine.resolve_gain_experience(&world, 100);
    assert_eq!(r.narrative, "Gained 100 experience points (Total: 100)");
    assert_eq!(r.effects.len(), 1);
    assert!(matches!(r.effects[0], Effect::ExperienceGained { amount: 100, new_total: 100 }));

    world.player_character.experience = 250;
    let r = engine.resolve_gain_experience(&world, 50);
    assert_eq!(r.narrative, "Gained 50 experience points (Total: 300)");
    assert_eq!(r.effects.len(), 2);
    assert!(matches!(r.effects[1], Effect::LevelUp { new_level: 2 }));

    // Enough for level 5 at once; the top level is 20.
    world.player_character.experience = 0;
    let r = engine.resolve_gain_experience(&world, 6500);
    assert!(matches!(r.effects[1], Effect::LevelUp { new_level: 5 }));
    let r = engine.resolve_gain_experience(&world, 1_000_000);
    assert!(matches!(r.effects[1], Effect::LevelUp { new_level: 20 }));
    world.player_character.level = 5;
    let r = engine.resolve_gain_experience(&world, 6500);
    assert_eq!(r.effects.len(), 1);
}

#[test]
fn facts_are_noted_with_their_related_entities() {
    let engine = RulesEngine::new();
    let related = vec!["Mira".to_string(), "Old Mine".to_string()];
    let r = engine.resolve_remember_fact("Baron", "npc", "owes money", "relationship", &related, 0.8f32.to_bits());
    assert_eq!(r.narrative, "Noted: Baron (npc) - owes money (related: Mira, Old Mine)");
    match &r.effects[0] {
        Effect::FactRemembered { subject_name, category, related_entities, importance_bits, .. } => {
            assert_eq!(subject_name, "Baron");
            assert_eq!(category, "relationship");
            assert_eq!(related_entities, &related);
            assert_eq!(f32::from_bits(*importance_bits), 0.8);
        },
        _ => panic!("Expected FactRemembered"),
    }
    let r = engine.resolve_remember_fact("Inn", "location", "burned down", "event", &[], 0.5f32.to_bits());
    assert_eq!(r.narrative, "Noted: Inn (location) - burned down");
}

#[test]
fn ability_changes_say_how_long_they_last() {
    let engine = RulesEngine::new();
    let r = engine.resolve_modify_ability_score(Ability::Strength, 2, "Belt of Giant Strength", Some("1 hour"));
    assert_eq!(r.narrative, "Strength modified by +2 for 1 hour from Belt of Giant Strength");
    assert!(matches!(r.effects[0], Effect::AbilityScoreModified { ability: Ability::Strength, modifier: 2, .. }));
    let r = engine.resolve_modify_ability_score(Ability::Wisdom, -1, "Curse", None);
    assert_eq!(r.narrative, "Wisdom modified by -1 permanently from Curse");
    let r = engine.resolve_modify_ability_score(Ability::Charisma, 0, "Nothing", None);
    assert_eq!(r.narrative, "Charisma modified by +0 permanently from Nothing");
}

fn caster_world() -> GameWorld {
    let mut character = Character::new("Sera");
    let mut slots = SpellSlots::new();
    slots.slots[0] = SlotInfo { total: 3, used: 1 };
    character.spellcasting = Some(SpellcastingData {
        ability: Ability::Wisdom,
        spells_known: vec![],
        spells_prepared: vec![],
        cantrips_known: vec![],
        spell_slots: slots,
    });
    GameWorld::new("Test", character)
}

#[test]
fn test_restore_spell_slot_valid() {
    let world = caster_world();
    let engine = RulesEngine::new();

    let resolution = engine.resolve_restore_spell_slot(&world, 1, "Arcane Recovery");

    assert!(resolution.narrative.contains("Level 1 spell slot restored"));
    assert!(resolution.narrative.contains("Arcane Recovery"));
    assert!(resolution.effects.iter().any(|e| matches!(e, Effect::SpellSlotRestored { level: 1, .. })));
}

#[test]
fn test_restore_spell_slot_invalid_level_zero() {
    let world = caster_world();
    let engine = RulesEngine::new();

    let resolution = engine.resolve_restore_spell_slot(&world, 0, "test");

    assert!(resolution.narrative.contains("Invalid spell slot level"));
    assert!(resolution.effects.is_empty());
}

#[test]
fn test_restore_spell_slot_invalid_level_too_high() {
    let world = caster_world();
    let engine = RulesEngine::new();

    let resolution = engine.resolve_restore_spell_slot(&world, 10, "test");

    assert!(resolution.narrative.contains("Invalid spell slot level"));
    assert!(resolution.effects.is_empty());
}

#[test]
fn restored_slot_counts_what_is_left_plus_one() {
    let world = caster_world();
    let r = RulesEngine::new().resolve_restore_spell_slot(&world, 1, "Pearl of Power");
    assert_eq!(r.narrative, "Level 1 spell slot restored by Pearl of Power");
    assert!(matches!(r.effects[0], Effect::SpellSlotRestored { level: 1, new_remaining: 3 }));
    let r = RulesEngine::new().resolve_restore_spell_slot(&fighter_world(), 2, "Pearl of Power");
    assert!(matches!(r.effects[0], Effect::SpellSlotRestored { level: 2, new_remaining: 0 }));
    let r = RulesEngine::new().resolve_restore_spell_slot(&world, 10, "x");
    assert_eq!(r.narrative, "Invalid spell slot level: 10. Must be between 1 and 9.");
}

#[test]
fn starting_combat_lists_the_combatants_by_initiative() {
    let engine = RulesEngine::new();
    let world = fighter_world();
    let combatants = vec![
        CombatantInit {
            id: world.player_character.id,
            name: "Roland".to_string(),
            is_player: true,
            is_ally: true,
            current_hp: 11,
            max_hp: 11,
            armor_class: 16,
            initiative_modifier: 2,
        },
        CombatantInit {
            id: CharacterId(9),
            name: "Goblin".to_string(),
            is_player: false,
            is_ally: false,
            current_hp: 7,
            max_hp: 7,
            armor_class: 15,
            initiative_modifier: 2,
        },
    ];
    let r = engine.resolve_start_combat(&world, combatants, &vec![10, 15]);
    assert!(matches!(r.effects[0], Effect::CombatStarted));
    assert!(r.effects.iter().any(|e| matches!(e, Effect::InitiativeRolled { total: 12, .. })));
    assert!(r.effects.iter().any(|e| matches!(e, Effect::InitiativeRolled { total: 17, .. })));
    assert!(r.effects.iter().any(|e| matches!(e, Effect::CombatantAdded { initiative: 17, armor_class: 15, .. })));
}
