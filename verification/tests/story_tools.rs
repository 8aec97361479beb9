use chronicler::intent::Intent;
use chronicler::json::{JsonNumber, JsonValue};
use chronicler::rules::StateType;
use chronicler::tool_parsing::{
    parse_class_features_tool, parse_gameplay_tool, parse_inventory_tool, parse_knowledge_tool, parse_locations_tool,
    parse_npc_tool, parse_schedule_tool, parse_state_tool,
};
use chronicler::world::{create_sample_fighter, GameWorld};

fn obj(entries: Vec<(&str, JsonValue)>) -> JsonValue {
    JsonValue::Object(entries.into_iter().map(|(k, v)| (k.to_string(), v)).collect())
}

fn whole(n: i64) -> JsonValue {
    JsonValue::Number(JsonNumber { whole: Some(n as i128), f32_bits: (n as f32).to_bits() })
}

fn text(s: &str) -> JsonValue {
    JsonValue::String(s.to_string())
}

#[test]
fn test_parse_share_knowledge() {
    let input = obj(vec![
        ("knowing_entity", text("Mira")),
        ("content", text("The old mine is haunted")),
        ("source", text("player")),
        ("verification", text("true")),
    ]);

    let intent = parse_knowledge_tool("share_knowledge", &input);
    assert!(intent.is_some());

    if let Some(Intent::ShareKnowledge { knowing_entity, content, source, verification, context }) = intent {
        assert_eq!(knowing_entity, "Mira");
        assert_eq!(content, "The old mine is haunted");
        assert_eq!(source, "player");
        assert_eq!(verification, "true");
        assert!(context.is_none());
    } else {
        panic!("Expected ShareKnowledge intent");
    }
}

#[test]
fn test_parse_share_knowledge_with_context() {
    let input = obj(vec![
        ("knowing_entity", text("Guard")),
        ("content", text("The baron is planning something")),
        ("source", text("observation")),
        ("verification", text("unknown")),
        ("context", text("Overheard in the courtyard")),
    ]);

    let intent = parse_knowledge_tool("share_knowledge", &input);
    assert!(intent.is_some());

    if let Some(Intent::ShareKnowledge { context, .. }) = intent {
        assert_eq!(context, Some("Overheard in the courtyard".to_string()));
    } else {
        panic!("Expected ShareKnowledge intent");
    }
}

#[test]
fn test_parse_share_knowledge_default_verification() {
    let input = obj(vec![
        ("knowing_entity", text("Mira")),
        ("content", text("Something happened")),
        ("source", text("player")),
    ]);

    let intent = parse_knowledge_tool("share_knowledge", &input);
    assert!(intent.is_some());

    if let Some(Intent::ShareKnowledge { verification, .. }) = intent {
        assert_eq!(verification, "unknown");
    } else {
        panic!("Expected ShareKnowledge intent");
    }
}

#[test]
fn test_parse_assert_state_disposition() {
    let input = obj(vec![
        ("entity_name", text("Mira")),
        ("state_type", text("disposition")),
        ("new_value", text("friendly")),
        ("reason", text("Player saved her shop")),
    ]);

    let intent = parse_state_tool("assert_state", &input);
    assert!(intent.is_some());

    if let Some(Intent::AssertState { entity_name, state_type, new_value, reason, target_entity }) = intent {
        assert_eq!(entity_name, "Mira");
        assert_eq!(state_type, StateType::Disposition);
        assert_eq!(new_value, "friendly");
        assert_eq!(reason, "Player saved her shop");
        assert!(target_entity.is_none());
    } else {
        panic!("Expected AssertState intent");
    }
}

#[test]
fn test_parse_assert_state_relationship() {
    let input = obj(vec![
        ("entity_name", text("Mira")),
        ("state_type", text("relationship")),
        ("new_value", text("ally")),
        ("reason", text("Trust built through shared adventure")),
        ("target_entity", text("Player")),
    ]);

    let intent = parse_state_tool("assert_state", &input);
    assert!(intent.is_some());

    if let Some(Intent::AssertState { entity_name, state_type, new_value, reason, target_entity }) = intent {
        assert_eq!(entity_name, "Mira");
        assert_eq!(state_type, StateType::Relationship);
        assert_eq!(new_value, "ally");
        assert_eq!(reason, "Trust built through shared adventure");
        assert_eq!(target_entity, Some("Player".to_string()));
    } else {
        panic!("Expected AssertState intent");
    }
}

#[test]
fn test_parse_assert_state_location() {
    let input = obj(vec![
        ("entity_name", text("Guard Captain")),
        ("state_type", text("location")),
        ("new_value", text("Northern Gate")),
        ("reason", text("Responding to alarm")),
    ]);

    let intent = parse_state_tool("assert_state", &input);
    assert!(intent.is_some());

    if let Some(Intent::AssertState { entity_name, state_type, new_value, .. }) = intent {
        assert_eq!(entity_name, "Guard Captain");
        assert_eq!(state_type, StateType::Location);
        assert_eq!(new_value, "Northern Gate");
    } else {
        panic!("Expected AssertState intent");
    }
}

#[test]
fn test_parse_assert_state_invalid_type() {
    let input = obj(vec![
        ("entity_name", text("Mira")),
        ("state_type", text("invalid_type")),
        ("new_value", text("friendly")),
        ("reason", text("Test")),
    ]);

    let intent = parse_state_tool("assert_state", &input);
    assert!(intent.is_none());
}

#[test]
fn test_parse_assert_state_missing_fields() {
    let input = obj(vec![("entity_name", text("Mira"))]);

    let intent = parse_state_tool("assert_state", &input);
    assert!(intent.is_none());
}

#[test]
fn test_parse_schedule_event_relative() {
    let input = obj(vec![
        ("description", text("Guard patrol arrives")),
        ("minutes", whole(30)),
        ("location", text("East Gate")),
    ]);

    let intent = parse_schedule_tool("schedule_event", &input);
    assert!(intent.is_some());

    if let Some(Intent::ScheduleEvent { description, minutes, location, .. }) = intent {
        assert_eq!(description, "Guard patrol arrives");
        assert_eq!(minutes, Some(30));
        assert_eq!(location, Some("East Gate".to_string()));
    } else {
        panic!("Expected ScheduleEvent intent");
    }
}

#[test]
fn test_parse_schedule_event_absolute() {
    let input = obj(vec![
        ("description", text("The festival begins")),
        ("day", whole(5)),
        ("month", whole(3)),
        ("year", whole(1492)),
        ("hour", whole(10)),
        ("visibility", text("public")),
    ]);

    let intent = parse_schedule_tool("schedule_event", &input);
    assert!(intent.is_some());

    if let Some(Intent::ScheduleEvent { description, day, month, year, hour, visibility, .. }) = intent {
        assert_eq!(description, "The festival begins");
        assert_eq!(day, Some(5));
        assert_eq!(month, Some(3));
        assert_eq!(year, Some(1492));
        assert_eq!(hour, Some(10));
        assert_eq!(visibility, "public");
    } else {
        panic!("Expected ScheduleEvent intent");
    }
}

#[test]
fn test_parse_schedule_event_daily() {
    let input = obj(vec![
        ("description", text("Morning market opens")),
        ("daily_hour", whole(8)),
        ("daily_minute", whole(0)),
        ("repeating", JsonValue::Bool(true)),
        ("location", text("Town Square")),
    ]);

    let intent = parse_schedule_tool("schedule_event", &input);
    assert!(intent.is_some());

    if let Some(Intent::ScheduleEvent { description, daily_hour, daily_minute, repeating, .. }) = intent {
        assert_eq!(description, "Morning market opens");
        assert_eq!(daily_hour, Some(8));
        assert_eq!(daily_minute, Some(0));
        assert!(repeating);
    } else {
        panic!("Expected ScheduleEvent intent");
    }
}

#[test]
fn test_parse_cancel_event() {
    let input = obj(vec![
        ("event_description", text("Meeting with the merchant")),
        ("reason", text("The merchant has fled town")),
    ]);

    let intent = parse_schedule_tool("cancel_event", &input);
    assert!(intent.is_some());

    if let Some(Intent::CancelEvent { event_description, reason }) = intent {
        assert_eq!(event_description, "Meeting with the merchant");
        assert_eq!(reason, "The merchant has fled town");
    } else {
        panic!("Expected CancelEvent intent");
    }
}

#[test]
fn an_event_without_a_time_is_still_scheduled() {
    let input = obj(vec![("description", text("The dragon wakes"))]);
    match parse_schedule_tool("schedule_event", &input) {
        Some(Intent::ScheduleEvent { minutes, hours, day, daily_hour, visibility, repeating, involved_entities, .. }) => {
            assert!(minutes.is_none() && hours.is_none() && day.is_none() && daily_hour.is_none());
            assert_eq!(visibility, "public");
            assert!(!repeating);
            assert!(involved_entities.is_empty());
        },
        _ => panic!("Expected ScheduleEvent intent"),
    }
    // A negative year is kept; a negative hour is no u64 and is dropped.
    let input = obj(vec![("description", text("Old war")), ("year", whole(-20)), ("hour", whole(-1))]);
    match parse_schedule_tool("schedule_event", &input) {
        Some(Intent::ScheduleEvent { year, hour, .. }) => {
            assert_eq!(year, Some(-20));
            assert!(hour.is_none());
        },
        _ => panic!("Expected ScheduleEvent intent"),
    }
    assert!(parse_schedule_tool("cancel_event", &obj(vec![("reason", text("x"))])).is_none());
}

#[test]
fn state_types_are_read_in_any_case() {
    let input = obj(vec![
        ("entity_name", text("Mira")),
        ("state_type", text("STATUS")),
        ("new_value", text("injured")),
        ("reason", text("Ambushed")),
    ]);
    match parse_state_tool("assert_state", &input) {
        Some(Intent::AssertState { state_type, .. }) => assert_eq!(state_type, StateType::Status),
        _ => panic!("Expected AssertState intent"),
    }
    assert!(parse_knowledge_tool("assert_state", &input).is_none());
}

#[test]
fn every_tool_name_belongs_to_one_domain_at_most() {
    let world = GameWorld::new("Test", create_sample_fighter("Roland"));
    let keys = [
        "reason", "points", "ability", "target", "spell_slot_level", "beast_form", "option", "die_size",
        "action_taken", "metamagic", "item_name", "slot", "name", "description", "personality", "npc_name",
        "destination", "location_type", "from_location", "to_location", "location_name", "modifier", "source",
        "slot_level", "minutes", "entity_name", "state_type", "new_value", "knowing_entity", "content",
        "event_description", "amount", "beast_hp",
    ];
    let mut entries: Vec<(&str, JsonValue)> = keys.iter().map(|k| (*k, text("location"))).collect();
    for k in ["points", "spell_slot_level", "beast_hp", "modifier", "slot_level", "minutes", "amount"] {
        entries.retain(|(e, _)| *e != k);
        entries.push((k, whole(3)));
    }
    entries.retain(|(e, _)| *e != "ability");
    entries.push(("ability", text("strength")));
    let input = obj(entries);
    let names = [
        "use_rage", "end_rage", "use_ki", "use_lay_on_hands", "use_divine_smite", "use_wild_shape", "end_wild_shape",
        "use_channel_divinity", "use_bardic_inspiration", "use_action_surge", "use_second_wind", "use_sorcery_points",
        "give_item", "remove_item", "use_item", "equip_item", "unequip_item", "adjust_gold", "adjust_silver",
        "create_npc", "update_npc", "move_npc", "remove_npc", "create_location", "connect_locations",
        "update_location", "modify_ability_score", "advance_time", "restore_spell_slot", "assert_state",
        "share_knowledge", "schedule_event", "cancel_event",
    ];
    for name in names {
        let answers = [
            parse_class_features_tool(name, &input, &world).is_some(),
            parse_inventory_tool(name, &input).is_some(),
            parse_npc_tool(name, &input).is_some(),
            parse_locations_tool(name, &input).is_some(),
            parse_gameplay_tool(name, &input, &world).is_some(),
            parse_state_tool(name, &input).is_some(),
            parse_knowledge_tool(name, &input).is_some(),
            parse_schedule_tool(name, &input).is_some(),
        ];
        assert_eq!(answers.iter().filter(|a| **a).count(), 1, "{name}");
    }
}
