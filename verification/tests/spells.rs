use chronicler::abilities::Ability;
use chronicler::attack::DamageDice;
use chronicler::rules::{DamageType, Effect, RulesEngine};
use chronicler::spellcasting::{SlotInfo, SpellSlots, SpellcastingData};
use chronicler::spells::{SpellAttackType, SpellData, SpellRolls};
use chronicler::world::{create_sample_fighter, start_combat, Character, Combatant, GameWorld};
use chronicler::ids::CharacterId;

/// A level 1 cleric with Wisdom 16 and two level 1 slots.
fn create_sample_cleric(name: &str) -> Character {
    let mut c = Character::new(name);
    c.ability_scores.wisdom = 16;
    let mut slots = SpellSlots::new();
    slots.slots[0] = SlotInfo { total: 2, used: 0 };
    c.spellcasting = Some(SpellcastingData {
        ability: Ability::Wisdom,
        spells_known: vec![],
        spells_prepared: vec![],
        cantrips_known: vec![],
        spell_slots: slots,
    });
    c
}

fn base(name: &str, level: u8) -> SpellData {
    SpellData {
        name: name.to_string(),
        level,
        concentration: false,
        attack_type: None,
        save_type: None,
        save_effect: None,
        damage_type: None,
        damage_dice: None,
        healing_dice: None,
        description: String::new(),
    }
}

/// The spells these tests cast, as the spell list records them.
fn get_spell(name: &str) -> Option<SpellData> {
    match name {
        "Sacred Flame" => Some(SpellData {
            save_type: Some(Ability::Dexterity),
            save_effect: Some("no damage".to_string()),
            damage_type: Some(DamageType::Radiant),
            damage_dice: Some(DamageDice::Dice { count: 1, sides: 8 }),
            ..base(name, 0)
        }),
        "Cure Wounds" => Some(SpellData { healing_dice: Some("1d8".to_string()), ..base(name, 1) }),
        "Spiritual Weapon" => Some(SpellData {
            attack_type: Some(SpellAttackType::Melee),
            damage_type: Some(DamageType::Force),
            damage_dice: Some(DamageDice::Dice { count: 1, sides: 8 }),
            ..base(name, 2)
        }),
        "Bless" => Some(SpellData {
            concentration: true,
            description: "Up to three creatures add a d4 to attacks and saves.".to_string(),
            ..base(name, 1)
        }),
        "Fire Bolt" => Some(SpellData {
            attack_type: Some(SpellAttackType::Ranged),
            damage_type: Some(DamageType::Fire),
            damage_dice: Some(DamageDice::Dice { count: 1, sides: 10 }),
            ..base(name, 0)
        }),
        _ => None,
    }
}

const ROLLS: SpellRolls = SpellRolls { attack_d20: 12, damage: Some(5), healing: Some(7) };

fn cast(world: &GameWorld, spell: &str, slot: u8, targets: &[String]) -> chronicler::rules::Resolution {
    RulesEngine::new().resolve_cast_spell(world, world.player_character.id, spell, get_spell(spell), slot, targets, &ROLLS)
}

#[test]
fn test_cast_spell_unknown_spell() {
    let character = create_sample_cleric("Sera");
    let world = GameWorld::new("Test", character);
    let resolution = cast(&world, "Nonexistent Spell", 1, &[]);
    assert!(resolution.narrative.contains("Unknown spell"));
    assert_eq!(resolution.narrative, "Unknown spell: 'Nonexistent Spell'. The spell is not in the database.");
    assert!(resolution.effects.is_empty());
}

#[test]
fn test_cast_cantrip_no_slot_required() {
    let character = create_sample_cleric("Sera");
    let world = GameWorld::new("Test", character);
    let resolution = cast(&world, "Sacred Flame", 0, &["Goblin".to_string()]);
    assert!(resolution.narrative.contains("casts Sacred Flame"));
    assert!(!resolution.effects.iter().any(|e| matches!(e, Effect::SpellSlotUsed { .. })));
}

#[test]
fn test_cast_spell_slot_too_low() {
    let character = create_sample_cleric("Sera");
    let world = GameWorld::new("Test", character);
    let resolution = cast(&world, "Spiritual Weapon", 1, &[]);
    assert!(resolution.narrative.contains("Cannot cast"));
    assert!(resolution.narrative.contains("requires at least level"));
    assert_eq!(resolution.narrative, "Cannot cast Spiritual Weapon using a level 1 slot - requires at least level 2.");
}

#[test]
fn test_cast_spell_no_spellcasting_ability() {
    let character = create_sample_fighter("Roland");
    let world = GameWorld::new("Test", character);
    let resolution = cast(&world, "Cure Wounds", 1, &["Roland".to_string()]);
    assert!(resolution.narrative.contains("doesn't have spellcasting"));
    assert!(resolution.effects.is_empty());
}

#[test]
fn test_cast_spell_consumes_slot() {
    let character = create_sample_cleric("Sera");
    let world = GameWorld::new("Test", character);
    let resolution = cast(&world, "Cure Wounds", 1, &["Ally".to_string()]);
    assert!(resolution.narrative.contains("casts Cure Wounds"));
    assert!(resolution.effects.iter().any(|e| matches!(e, Effect::SpellSlotUsed { level: 1, .. })));
}

#[test]
fn test_cast_spell_upcast() {
    let mut character = create_sample_cleric("Sera");
    if let Some(ref mut spellcasting) = character.spellcasting {
        spellcasting.spell_slots.slots[1] = SlotInfo { total: 2, used: 0 };
    }
    let world = GameWorld::new("Test", character);
    let resolution = cast(&world, "Cure Wounds", 2, &["Ally".to_string()]);
    assert!(resolution.narrative.contains("upcast at level 2"));
    assert!(resolution.effects.iter().any(|e| matches!(e, Effect::SpellSlotUsed { level: 2, .. })));
}

#[test]
fn test_cast_spell_concentration() {
    let character = create_sample_cleric("Sera");
    let world = GameWorld::new("Test", character);
    let resolution = cast(&world, "Bless", 1, &["Ally".to_string()]);
    assert!(resolution.narrative.contains("Concentration"));
    assert_eq!(
        resolution.narrative,
        "Sera casts Bless (level 1 slot)! (Concentration) Up to three creatures add a d4 to attacks and saves."
    );
    assert_eq!(resolution.effects.len(), 1);
}

#[test]
fn test_cast_healing_spell() {
    let character = create_sample_cleric("Sera");
    let world = GameWorld::new("Test", character);
    let resolution = cast(&world, "Cure Wounds", 1, &["Roland".to_string()]);
    assert!(resolution.narrative.contains("heals"));
    assert!(resolution.narrative.contains("Roland"));
    assert!(resolution.effects.iter().any(
        |e| matches!(e, Effect::DiceRolled { purpose, .. } if purpose.contains("healing"))
    ));
    assert_eq!(resolution.narrative, "Sera casts Cure Wounds (level 1 slot)! Sera heals Roland for 7 HP.");
    match &resolution.effects[0] {
        Effect::DiceRolled { roll, purpose } => {
            assert_eq!((roll.expression.as_str(), roll.total), ("1d8+3", 7));
            assert_eq!(purpose, "Cure Wounds healing");
        },
        _ => panic!("Expected DiceRolled"),
    }
}

#[test]
fn test_cast_spell_saving_throw() {
    let character = create_sample_cleric("Sera");
    let world = GameWorld::new("Test", character);
    let resolution = cast(&world, "Sacred Flame", 0, &["Goblin".to_string()]);
    assert!(resolution.narrative.contains("saving throw"));
    assert!(resolution.narrative.contains("DC"));
    assert_eq!(
        resolution.narrative,
        "Sera casts Sacred Flame! Targets must make a DC 13 Dexterity saving throw (no damage on success). On a failed save: 5 radiant damage."
    );
    assert_eq!(resolution.effects.len(), 1);
}

#[test]
fn used_up_slots_refuse_the_casting() {
    let mut character = create_sample_cleric("Sera");
    if let Some(ref mut spellcasting) = character.spellcasting {
        spellcasting.spell_slots.slots[0] = SlotInfo { total: 2, used: 2 };
    }
    let world = GameWorld::new("Test", character);
    let resolution = cast(&world, "Cure Wounds", 0, &[]);
    assert_eq!(resolution.narrative, "Sera has no level 1 spell slots remaining!");
    let resolution = cast(&world, "Cure Wounds", 10, &[]);
    assert_eq!(resolution.narrative, "Invalid spell slot level.");
}

#[test]
fn spell_attacks_hit_named_targets_and_crits_double_the_dice() {
    let mut world = GameWorld::new("Test", create_sample_cleric("Sera"));
    let combat = start_combat(&mut world);
    combat.combatants.push(Combatant {
        id: CharacterId(4),
        name: "Goblin".to_string(),
        initiative: 10,
        is_player: false,
        is_ally: false,
        current_hp: 7,
        max_hp: 7,
        armor_class: 15,
    });
    let engine = RulesEngine::new();
    let me = world.player_character.id;
    let targets = ["goblin".to_string()];
    let hit = SpellRolls { attack_d20: 11, damage: Some(6), healing: None };
    let r = engine.resolve_cast_spell(&world, me, "Fire Bolt", get_spell("Fire Bolt"), 0, &targets, &hit);
    assert_eq!(r.narrative, "Sera casts Fire Bolt! Makes a ranged spell attack against goblin: 16 vs AC 15. Hit! Deals 6 fire damage.");
    assert_eq!(r.effects.len(), 3);
    assert!(matches!(r.effects[1], Effect::AttackHit { attack_roll: 16, target_ac: 15, is_critical: false, .. }));

    let crit = SpellRolls { attack_d20: 20, damage: Some(13), healing: None };
    let r = engine.resolve_cast_spell(&world, me, "Fire Bolt", get_spell("Fire Bolt"), 0, &targets, &crit);
    match &r.effects[2] {
        Effect::DiceRolled { roll, purpose } => {
            assert_eq!(roll.expression, "2d10");
            assert_eq!(purpose, "Fire Bolt damage");
        },
        _ => panic!("Expected DiceRolled"),
    }

    let miss = SpellRolls { attack_d20: 9, damage: Some(6), healing: None };
    let r = engine.resolve_cast_spell(&world, me, "Fire Bolt", get_spell("Fire Bolt"), 0, &targets, &miss);
    assert_eq!(r.narrative, "Sera casts Fire Bolt! Makes a ranged spell attack against goblin: 14 vs AC 15. Miss!");
    assert!(matches!(r.effects[1], Effect::AttackMissed { attack_roll: 14, target_ac: 15, .. }));
    assert_eq!(r.effects.len(), 2);
}
