use chronicler::rules::{Effect, RulesEngine};
use chronicler::spellcasting::{SlotInfo, SpellSlots, SpellcastingData};
use chronicler::abilities::Ability;
use chronicler::health::HitPoints;
use chronicler::world::{Character, CharacterClass, ClassLevel, Feature, FeatureUses, GameWorld};

fn world_with(class: CharacterClass, level: u8) -> GameWorld {
    let mut c = Character::new("Kara");
    c.hit_points = HitPoints::new(11);
    c.classes.push(ClassLevel { class, level, subclass: None });
    GameWorld::new("Test", c)
}

fn resource_description(e: &Effect) -> String {
    match e {
        Effect::ClassResourceUsed { description, .. } => description.clone(),
        _ => panic!("Expected ClassResourceUsed"),
    }
}

#[test]
fn rage_bonus_grows_with_barbarian_level() {
    let engine = RulesEngine::new();
    let w = world_with(CharacterClass::Barbarian, 9);
    let r = engine.resolve_use_rage(&w, w.player_character.id);
    assert_eq!(
        r.narrative,
        "Kara enters a RAGE! Gains: advantage on STR checks/saves, +3 rage damage to melee attacks, resistance to bludgeoning/piercing/slashing damage. Cannot cast spells or concentrate while raging."
    );
    assert!(matches!(r.effects[0], Effect::RageStarted { damage_bonus: 3, .. }));
    assert_eq!(resource_description(&r.effects[1]), "Entered rage (1 minute, +3 damage)");
    assert!(matches!(&r.effects[2], Effect::FeatureUsed { feature_name, uses_remaining: 0 } if feature_name == "Rage"));
    let w = world_with(CharacterClass::Barbarian, 16);
    assert!(matches!(engine.resolve_use_rage(&w, w.player_character.id).effects[0], Effect::RageStarted { damage_bonus: 4, .. }));
    let w = world_with(CharacterClass::Fighter, 3);
    assert!(matches!(engine.resolve_use_rage(&w, w.player_character.id).effects[0], Effect::RageStarted { damage_bonus: 2, .. }));
}

#[test]
fn rage_needs_uses_and_ends_with_a_reason() {
    let engine = RulesEngine::new();
    let mut w = world_with(CharacterClass::Barbarian, 2);
    w.player_character.features.push(Feature { name: "Rage".to_string(), uses: Some(FeatureUses { current: 0 }) });
    let id = w.player_character.id;
    assert_eq!(engine.resolve_use_rage(&w, id).narrative, "Kara has no rage uses remaining! (Recovers on long rest)");
    assert_eq!(engine.resolve_end_rage(&w, id, "voluntary").narrative, "Kara is not currently raging.");
    w.player_character.class_resources.rage_active = true;
    assert_eq!(engine.resolve_use_rage(&w, id).narrative, "Kara is already raging!");
    let r = engine.resolve_end_rage(&w, id, "unconscious");
    assert_eq!(r.narrative, "Kara's rage ends. Rage ended (knocked unconscious).");
    assert!(matches!(&r.effects[0], Effect::RageEnded { reason, .. } if reason == "Rage ended (knocked unconscious)."));
    assert_eq!(engine.resolve_end_rage(&w, id, "bored").narrative, "Kara's rage ends. Rage ended.");
}

#[test]
fn ki_and_lay_on_hands_spend_from_pools() {
    let engine = RulesEngine::new();
    let mut w = world_with(CharacterClass::Monk, 5);
    let id = w.player_character.id;
    w.player_character.class_resources.ki_points = 3;
    let r = engine.resolve_use_ki(&w, id, 1, "flurry_of_blows");
    assert_eq!(r.narrative, "Kara spends 1 ki point. Flurry of Blows: Make two unarmed strikes as a bonus action.");
    assert_eq!(resource_description(&r.effects[0]), "Spent 1 ki for flurry_of_blows");
    let r = engine.resolve_use_ki(&w, id, 2, "quivering_palm");
    assert_eq!(r.narrative, "Kara spends 2 ki points. quivering_palm");
    let r = engine.resolve_use_ki(&w, id, 4, "stunning_strike");
    assert_eq!(r.narrative, "Kara doesn't have enough ki points! Has 3 but needs 4.");
    assert!(r.effects.is_empty());

    w.player_character.class_resources.lay_on_hands_pool = 20;
    let r = engine.resolve_use_lay_on_hands(&w, id, "Ally", 10, true, false);
    assert_eq!(r.narrative, "Kara uses Lay on Hands on Ally: restores 10 HP, cures one disease. (5 HP remaining in pool)");
    assert_eq!(resource_description(&r.effects[0]), "Used 15 points on Ally");
    let r = engine.resolve_use_lay_on_hands(&w, id, "Ally", 0, false, false);
    assert_eq!(r.narrative, "Kara uses Lay on Hands on Ally: . (20 HP remaining in pool)");
    let r = engine.resolve_use_lay_on_hands(&w, id, "Ally", 12, true, true);
    assert_eq!(r.narrative, "Kara doesn't have enough in their Lay on Hands pool! Has 20 HP but needs 22.");
}

#[test]
fn divine_smite_counts_its_dice() {
    let engine = RulesEngine::new();
    let mut w = world_with(CharacterClass::Paladin, 5);
    let id = w.player_character.id;
    let r = engine.resolve_use_divine_smite(&w, id, 1, false, 9);
    assert_eq!(
        r.narrative,
        "Kara channels divine power into their strike! Divine Smite deals 2d8 = 9 radiant damage. (Level 1 slot expended)"
    );
    match &r.effects[0] {
        Effect::DiceRolled { roll, purpose } => {
            assert_eq!(roll.expression, "2d8");
            assert_eq!(roll.total, 9);
            assert_eq!(purpose, "Divine Smite damage");
        },
        _ => panic!("Expected DiceRolled"),
    }
    assert_eq!(resource_description(&r.effects[1]), "Used level 1 slot for smite");
    let r = engine.resolve_use_divine_smite(&w, id, 4, true, 30);
    assert!(r.narrative.contains("deals 6d8 = 30 radiant damage (extra damage vs undead/fiend)"));
    let r = engine.resolve_use_divine_smite(&w, id, 9, false, 20);
    assert!(r.narrative.contains("deals 5d8 = 20"));

    let mut slots = SpellSlots::new();
    slots.slots[1] = SlotInfo { total: 2, used: 2 };
    w.player_character.spellcasting = Some(SpellcastingData {
        ability: Ability::Charisma,
        spells_known: vec![],
        spells_prepared: vec![],
        cantrips_known: vec![],
        spell_slots: slots,
    });
    let r = engine.resolve_use_divine_smite(&w, id, 2, false, 12);
    assert_eq!(r.narrative, "Kara has no level 2 spell slots remaining!");
    assert!(r.effects.is_empty());
}

#[test]
fn wild_shape_lasts_by_druid_level_and_carries_damage_back() {
    let engine = RulesEngine::new();
    let mut w = world_with(CharacterClass::Druid, 4);
    let id = w.player_character.id;
    let r = engine.resolve_use_wild_shape(&w, id, "Wolf", 11, Some(13));
    assert_eq!(
        r.narrative,
        "Kara transforms into a Wolf! Beast form has 11 HP. Duration: 2 hours. Mental stats, proficiencies, and features retained. Cannot cast spells but can maintain concentration."
    );
    assert_eq!(resource_description(&r.effects[0]), "Transformed into Wolf (11 HP)");
    let w2 = world_with(CharacterClass::Druid, 3);
    assert!(engine.resolve_use_wild_shape(&w2, id, "Cat", 2, None).narrative.contains("Duration: 1 hour."));
    assert_eq!(engine.resolve_end_wild_shape(&w, id, "voluntary", 0).narrative, "Kara is not currently in Wild Shape form.");

    w.player_character.class_resources.wild_shape_form = Some("Wolf".to_string());
    assert_eq!(engine.resolve_use_wild_shape(&w, id, "Bear", 34, None).narrative, "Kara is already in Wild Shape form!");
    let r = engine.resolve_end_wild_shape(&w, id, "hp_zero", 5);
    assert_eq!(
        r.narrative,
        "Kara reverts to their normal form. Wild Shape ended (beast HP dropped to 0). 5 excess damage carries over to normal form!"
    );
    assert_eq!(r.effects.len(), 2);
    assert!(matches!(r.effects[1], Effect::HpChanged { amount: -5, new_current: 6, new_max: 11, dropped_to_zero: false, .. }));
    let r = engine.resolve_end_wild_shape(&w, id, "hp_zero", 20);
    assert!(matches!(r.effects[1], Effect::HpChanged { new_current: 0, dropped_to_zero: true, .. }));
    let r = engine.resolve_end_wild_shape(&w, id, "duration_expired", 0);
    assert_eq!(r.narrative, "Kara reverts to their normal form. Wild Shape ended (duration expired).");
    assert_eq!(r.effects.len(), 1);
}

#[test]
fn channel_divinity_and_inspiration_describe_what_happens() {
    let engine = RulesEngine::new();
    let mut w = world_with(CharacterClass::Cleric, 2);
    let id = w.player_character.id;
    let targets = vec!["Zombie".to_string(), "Skeleton".to_string()];
    let r = engine.resolve_use_channel_divinity(&w, id, "Turn Undead", &targets);
    assert_eq!(
        r.narrative,
        "Kara uses Channel Divinity: Turn Undead: Each undead within 30 feet must make a WIS save. On failure, they must spend their turns moving away and cannot take reactions for 1 minute.. Targets: Zombie, Skeleton."
    );
    assert_eq!(resource_description(&r.effects[0]), "Turn Undead");
    let r = engine.resolve_use_channel_divinity(&w, id, "Preserve Life", &[]);
    assert_eq!(r.narrative, "Kara uses Channel Divinity: Preserve Life.");

    let r = engine.resolve_use_bardic_inspiration(&w, id, "Ally", "d8");
    assert_eq!(
        r.narrative,
        "Kara inspires Ally with a rousing performance! Ally gains a d8 Bardic Inspiration die they can add to one ability check, attack roll, or saving throw within the next 10 minutes."
    );
    w.player_character.features.push(Feature { name: "Bardic Inspiration".to_string(), uses: Some(FeatureUses { current: 0 }) });
    assert!(engine.resolve_use_bardic_inspiration(&w, id, "Ally", "d8").narrative.contains("has no Bardic Inspiration uses remaining!"));
}

#[test]
fn fighters_surge_and_catch_their_breath_once() {
    let engine = RulesEngine::new();
    let mut w = world_with(CharacterClass::Fighter, 3);
    let id = w.player_character.id;
    w.player_character.hit_points.current = 4;
    let r = engine.resolve_use_action_surge(&w, id, "Attack action");
    assert_eq!(r.narrative, "Kara surges with renewed vigor! Takes an additional action this turn: Attack action");
    let r = engine.resolve_use_second_wind(&w, id, 9);
    assert_eq!(r.narrative, "Kara catches their breath with Second Wind! Regains 1d10+3 = 9 HP. (Now at 11/11)");
    assert!(matches!(&r.effects[0], Effect::DiceRolled { roll, .. } if roll.expression == "1d10+3"));
    assert!(matches!(r.effects[1], Effect::HpChanged { amount: 9, new_current: 11, .. }));
    assert_eq!(resource_description(&r.effects[2]), "Healed 9 HP");
    let r = engine.resolve_use_second_wind(&w, id, 5);
    assert!(r.narrative.ends_with("(Now at 9/11)"));

    w.player_character.class_resources.action_surge_used = true;
    w.player_character.class_resources.second_wind_used = true;
    assert_eq!(engine.resolve_use_action_surge(&w, id, "Dash").narrative, "Kara has already used Action Surge! (Recovers on short/long rest)");
    assert_eq!(engine.resolve_use_second_wind(&w, id, 5).narrative, "Kara has already used Second Wind! (Recovers on short/long rest)");
}

#[test]
fn sorcery_points_convert_and_power_metamagic() {
    let engine = RulesEngine::new();
    let mut w = world_with(CharacterClass::Sorcerer, 5);
    let id = w.player_character.id;
    w.player_character.class_resources.sorcery_points = 4;
    let r = engine.resolve_use_sorcery_points(&w, id, 2, "Quickened", Some("Fireball"), None);
    assert_eq!(r.narrative, "Kara uses Quickened Spell: Cast as a bonus action instead of an action. on Fireball (2 sorcery points).");
    assert_eq!(resource_description(&r.effects[0]), "Used 2 for Quickened");
    let r = engine.resolve_use_sorcery_points(&w, id, 1, "seeking", None, None);
    assert_eq!(r.narrative, "Kara uses seeking (1 sorcery point).");
    let r = engine.resolve_use_sorcery_points(&w, id, 5, "twinned", None, None);
    assert_eq!(r.narrative, "Kara doesn't have enough sorcery points! Has 4 but needs 5.");
    let r = engine.resolve_use_sorcery_points(&w, id, 0, "convert_to_slot", None, Some(3));
    assert_eq!(r.narrative, "Kara converts 3 sorcery points into a level 3 spell slot.");
    let r = engine.resolve_use_sorcery_points(&w, id, 0, "convert_to_slot", None, Some(5));
    assert_eq!(r.narrative, "Kara doesn't have enough sorcery points! Has 4 but needs 5 to create a level 5 slot.");
    let r = engine.resolve_use_sorcery_points(&w, id, 0, "convert_from_slot", None, Some(2));
    assert_eq!(r.narrative, "Kara converts a level 2 spell slot into 2 sorcery points.");
    assert_eq!(resource_description(&r.effects[0]), "Gained 2 points from slot");
}

#[test]
fn limited_features_count_their_uses() {
    let engine = RulesEngine::new();
    let mut w = world_with(CharacterClass::Fighter, 1);
    let id = w.player_character.id;
    w.player_character.features.push(Feature { name: "Indomitable".to_string(), uses: Some(FeatureUses { current: 2 }) });
    w.player_character.features.push(Feature { name: "Darkvision".to_string(), uses: None });
    w.player_character.features.push(Feature { name: "Luck".to_string(), uses: Some(FeatureUses { current: 0 }) });
    let r = engine.resolve_use_feature(&w, id, "Indomitable");
    assert_eq!(r.narrative, "Kara uses Indomitable (1 uses remaining)");
    assert!(matches!(&r.effects[0], Effect::FeatureUsed { uses_remaining: 1, .. }));
    assert_eq!(engine.resolve_use_feature(&w, id, "Darkvision").narrative, "Kara uses Darkvision");
    assert_eq!(engine.resolve_use_feature(&w, id, "Luck").narrative, "Kara has no uses of Luck remaining");
    assert_eq!(engine.resolve_use_feature(&w, id, "indomitable").narrative, "Kara does not have the feature indomitable");
}
