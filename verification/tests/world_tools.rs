use chronicler::intent::Intent;
use chronicler::json::{JsonNumber, JsonValue};
use chronicler::tool_parsing::{parse_locations_tool, parse_npc_tool};

fn obj(entries: Vec<(&str, JsonValue)>) -> JsonValue {
    JsonValue::Object(entries.into_iter().map(|(k, v)| (k.to_string(), v)).collect())
}

fn whole(n: i64) -> JsonValue {
    JsonValue::Number(JsonNumber { whole: Some(n as i128), f32_bits: (n as f32).to_bits() })
}

fn text(s: &str) -> JsonValue {
    JsonValue::String(s.to_string())
}

fn list(items: &[&str]) -> JsonValue {
    JsonValue::Array(items.iter().map(|s| text(s)).collect())
}

#[test]
fn test_create_location() {
    let input = obj(vec![
        ("name", text("The Rusty Tankard")),
        ("location_type", text("building")),
        ("description", text("A cozy tavern with a roaring fireplace and the smell of ale")),
        ("parent_location", text("Riverside Village")),
        ("items", list(&["Dusty bottle of wine", "Mysterious letter"])),
        ("npcs_present", list(&["Grumble the Innkeeper"])),
    ]);

    let intent = parse_locations_tool("create_location", &input);
    assert!(intent.is_some());

    if let Some(Intent::CreateLocation { name, location_type, description, parent_location, items, npcs_present }) =
        intent
    {
        assert_eq!(name, "The Rusty Tankard");
        assert_eq!(location_type, "building");
        assert!(description.contains("tavern"));
        assert_eq!(parent_location, Some("Riverside Village".to_string()));
        assert_eq!(items.len(), 2);
        assert_eq!(npcs_present.len(), 1);
    } else {
        panic!("Expected CreateLocation intent");
    }
}

#[test]
fn test_connect_locations() {
    let input = obj(vec![
        ("from_location", text("Riverside Village")),
        ("to_location", text("Dark Forest")),
        ("direction", text("north")),
        ("travel_time_minutes", whole(30)),
        ("bidirectional", JsonValue::Bool(true)),
    ]);

    let intent = parse_locations_tool("connect_locations", &input);
    assert!(intent.is_some());

    if let Some(Intent::ConnectLocations { from_location, to_location, direction, travel_time_minutes, bidirectional }) =
        intent
    {
        assert_eq!(from_location, "Riverside Village");
        assert_eq!(to_location, "Dark Forest");
        assert_eq!(direction, Some("north".to_string()));
        assert_eq!(travel_time_minutes, Some(30));
        assert!(bidirectional);
    } else {
        panic!("Expected ConnectLocations intent");
    }
}

#[test]
fn test_update_location() {
    let input = obj(vec![
        ("location_name", text("The Rusty Tankard")),
        ("new_description", text("The tavern is now bustling with activity")),
        ("add_items", list(&["Gold coins on the bar"])),
        ("remove_items", list(&["Dusty bottle of wine"])),
        ("add_npcs", list(&["Mysterious Stranger"])),
        ("remove_npcs", list(&[])),
    ]);

    let intent = parse_locations_tool("update_location", &input);
    assert!(intent.is_some());

    if let Some(Intent::UpdateLocation { location_name, new_description, add_items, remove_items, add_npcs, remove_npcs }) =
        intent
    {
        assert_eq!(location_name, "The Rusty Tankard");
        assert!(new_description.is_some());
        assert_eq!(add_items.len(), 1);
        assert_eq!(remove_items.len(), 1);
        assert_eq!(add_npcs.len(), 1);
        assert!(remove_npcs.is_empty());
    } else {
        panic!("Expected UpdateLocation intent");
    }
}

#[test]
fn test_create_npc() {
    let input = obj(vec![
        ("name", text("Grumble the Innkeeper")),
        ("description", text("A stout dwarf with a braided beard and a perpetual scowl")),
        ("personality", text("Gruff but secretly kind-hearted")),
        ("occupation", text("Innkeeper")),
        ("disposition", text("neutral")),
        ("location", text("The Rusty Tankard")),
        ("known_information", list(&["The road to the north has been dangerous lately"])),
    ]);

    let intent = parse_npc_tool("create_npc", &input);
    assert!(intent.is_some());

    if let Some(Intent::CreateNpc { name, description, occupation, disposition, location, known_information, .. }) =
        intent
    {
        assert_eq!(name, "Grumble the Innkeeper");
        assert!(description.contains("dwarf"));
        assert_eq!(occupation, Some("Innkeeper".to_string()));
        assert_eq!(disposition, "neutral");
        assert_eq!(location, Some("The Rusty Tankard".to_string()));
        assert_eq!(known_information.len(), 1);
    } else {
        panic!("Expected CreateNpc intent");
    }
}

#[test]
fn test_update_npc() {
    let input = obj(vec![
        ("npc_name", text("Grumble the Innkeeper")),
        ("disposition", text("friendly")),
        ("add_information", list(&["Knows about a secret passage in the cellar"])),
    ]);

    let intent = parse_npc_tool("update_npc", &input);
    assert!(intent.is_some());

    if let Some(Intent::UpdateNpc { npc_name, disposition, add_information, .. }) = intent {
        assert_eq!(npc_name, "Grumble the Innkeeper");
        assert_eq!(disposition, Some("friendly".to_string()));
        assert_eq!(add_information.len(), 1);
    } else {
        panic!("Expected UpdateNpc intent");
    }
}

#[test]
fn test_move_npc() {
    let input = obj(vec![
        ("npc_name", text("Grumble the Innkeeper")),
        ("destination", text("Market Square")),
        ("reason", text("Going to buy supplies")),
    ]);

    let intent = parse_npc_tool("move_npc", &input);
    assert!(intent.is_some());

    if let Some(Intent::MoveNpc { npc_name, destination, reason }) = intent {
        assert_eq!(npc_name, "Grumble the Innkeeper");
        assert_eq!(destination, "Market Square");
        assert_eq!(reason, Some("Going to buy supplies".to_string()));
    } else {
        panic!("Expected MoveNpc intent");
    }
}

#[test]
fn test_remove_npc() {
    let input = obj(vec![
        ("npc_name", text("The Bandit Leader")),
        ("reason", text("Killed in combat by the party")),
        ("permanent", JsonValue::Bool(true)),
    ]);

    let intent = parse_npc_tool("remove_npc", &input);
    assert!(intent.is_some());

    if let Some(Intent::RemoveNpc { npc_name, reason, permanent }) = intent {
        assert_eq!(npc_name, "The Bandit Leader");
        assert!(reason.contains("Killed"));
        assert!(permanent);
    } else {
        panic!("Expected RemoveNpc intent");
    }
}

#[test]
fn npc_and_connection_defaults() {
    let input = obj(vec![
        ("name", text("Mira")),
        ("description", text("A shopkeeper")),
        ("personality", text("Wary")),
    ]);
    match parse_npc_tool("create_npc", &input) {
        Some(Intent::CreateNpc { disposition, occupation, location, known_information, .. }) => {
            assert_eq!(disposition, "neutral");
            assert!(occupation.is_none());
            assert!(location.is_none());
            assert!(known_information.is_empty());
        },
        _ => panic!("Expected CreateNpc intent"),
    }
    let missing_personality = obj(vec![("name", text("Mira")), ("description", text("A shopkeeper"))]);
    assert!(parse_npc_tool("create_npc", &missing_personality).is_none());

    let road = obj(vec![("from_location", text("A")), ("to_location", text("B"))]);
    match parse_locations_tool("connect_locations", &road) {
        Some(Intent::ConnectLocations { bidirectional, direction, travel_time_minutes, .. }) => {
            assert!(bidirectional);
            assert!(direction.is_none());
            assert!(travel_time_minutes.is_none());
        },
        _ => panic!("Expected ConnectLocations intent"),
    }
    match parse_npc_tool("remove_npc", &obj(vec![("npc_name", text("X")), ("reason", text("left"))])) {
        Some(Intent::RemoveNpc { permanent, .. }) => assert!(!permanent),
        _ => panic!("Expected RemoveNpc intent"),
    }
    assert!(parse_npc_tool("create_location", &road).is_none());
    assert!(parse_locations_tool("create_npc", &input).is_none());
}
