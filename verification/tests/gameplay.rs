use chronicler::abilities::{parse_ability, Ability};
use chronicler::intent::Intent;
use chronicler::json::{JsonNumber, JsonValue};
use chronicler::tool_parsing::parse_gameplay_tool;
use chronicler::world::{Character, GameWorld};

fn obj(entries: Vec<(&str, JsonValue)>) -> JsonValue {
    JsonValue::Object(entries.into_iter().map(|(k, v)| (k.to_string(), v)).collect())
}

fn whole(n: i64) -> JsonValue {
    JsonValue::Number(JsonNumber { whole: Some(n as i128), f32_bits: (n as f32).to_bits() })
}

fn text(s: &str) -> JsonValue {
    JsonValue::String(s.to_string())
}

fn create_test_world() -> GameWorld {
    let character = Character::new("Test Hero");
    GameWorld::new("Test Campaign", character)
}

#[test]
fn test_modify_ability_score() {
    let world = create_test_world();
    let input = obj(vec![
        ("ability", text("strength")),
        ("modifier", whole(2)),
        ("source", text("Belt of Giant Strength")),
        ("duration", text("while worn")),
    ]);

    let intent = parse_gameplay_tool("modify_ability_score", &input, &world);
    assert!(intent.is_some());

    if let Some(Intent::ModifyAbilityScore { ability, modifier, source, duration }) = intent {
        assert_eq!(ability, Ability::Strength);
        assert_eq!(modifier, 2);
        assert_eq!(source, "Belt of Giant Strength");
        assert_eq!(duration, Some("while worn".to_string()));
    } else {
        panic!("Expected ModifyAbilityScore intent");
    }
}

#[test]
fn test_advance_time() {
    let world = create_test_world();
    let input = obj(vec![("minutes", whole(60))]);

    let intent = parse_gameplay_tool("advance_time", &input, &world);
    assert!(intent.is_some());

    if let Some(Intent::AdvanceTime { minutes }) = intent {
        assert_eq!(minutes, 60);
    } else {
        panic!("Expected AdvanceTime intent");
    }
}

#[test]
fn test_restore_spell_slot() {
    let world = create_test_world();
    let input = obj(vec![("slot_level", whole(3)), ("source", text("Pearl of Power"))]);

    let intent = parse_gameplay_tool("restore_spell_slot", &input, &world);
    assert!(intent.is_some());

    if let Some(Intent::RestoreSpellSlot { slot_level, source }) = intent {
        assert_eq!(slot_level, 3);
        assert_eq!(source, "Pearl of Power");
    } else {
        panic!("Expected RestoreSpellSlot intent");
    }
}

#[test]
fn test_restore_spell_slot_invalid_level() {
    let world = create_test_world();

    let input = obj(vec![("slot_level", whole(0)), ("source", text("Invalid"))]);
    assert!(parse_gameplay_tool("restore_spell_slot", &input, &world).is_none());

    let input = obj(vec![("slot_level", whole(10)), ("source", text("Invalid"))]);
    assert!(parse_gameplay_tool("restore_spell_slot", &input, &world).is_none());
}

#[test]
fn test_parse_ability() {
    assert_eq!(parse_ability("strength"), Some(Ability::Strength));
    assert_eq!(parse_ability("STR"), Some(Ability::Strength));
    assert_eq!(parse_ability("dexterity"), Some(Ability::Dexterity));
    assert_eq!(parse_ability("DEX"), Some(Ability::Dexterity));
    assert_eq!(parse_ability("constitution"), Some(Ability::Constitution));
    assert_eq!(parse_ability("CON"), Some(Ability::Constitution));
    assert_eq!(parse_ability("intelligence"), Some(Ability::Intelligence));
    assert_eq!(parse_ability("INT"), Some(Ability::Intelligence));
    assert_eq!(parse_ability("wisdom"), Some(Ability::Wisdom));
    assert_eq!(parse_ability("WIS"), Some(Ability::Wisdom));
    assert_eq!(parse_ability("charisma"), Some(Ability::Charisma));
    assert_eq!(parse_ability("CHA"), Some(Ability::Charisma));
    assert_eq!(parse_ability("invalid"), None);
}

#[test]
fn abilities_are_read_in_any_case_and_unknown_ones_refused() {
    let world = create_test_world();
    let input = obj(vec![("ability", text("Wis")), ("modifier", whole(-2)), ("source", text("Curse"))]);
    match parse_gameplay_tool("modify_ability_score", &input, &world) {
        Some(Intent::ModifyAbilityScore { ability, modifier, duration, .. }) => {
            assert_eq!(ability, Ability::Wisdom);
            assert_eq!(modifier, -2);
            assert!(duration.is_none());
        },
        _ => panic!("Expected ModifyAbilityScore intent"),
    }
    let unknown = obj(vec![("ability", text("luck")), ("modifier", whole(1)), ("source", text("Charm"))]);
    assert!(parse_gameplay_tool("modify_ability_score", &unknown, &world).is_none());
}

#[test]
fn slot_level_is_checked_after_it_is_read_as_a_byte() {
    let world = create_test_world();
    // 259 is 3 in its low byte, which is a valid level.
    let input = obj(vec![("slot_level", whole(259)), ("source", text("Odd"))]);
    match parse_gameplay_tool("restore_spell_slot", &input, &world) {
        Some(Intent::RestoreSpellSlot { slot_level, .. }) => assert_eq!(slot_level, 3),
        _ => panic!("Expected RestoreSpellSlot intent"),
    }
    let nine = obj(vec![("slot_level", whole(9)), ("source", text("Wish"))]);
    assert!(parse_gameplay_tool("restore_spell_slot", &nine, &world).is_some());
    assert!(parse_gameplay_tool("no_such_tool", &nine, &world).is_none());
}
