use chronicler::json::JsonValue;
use chronicler::queries::{query_entity_knowledge, query_entity_state};
use chronicler::world::{create_sample_fighter, Disposition, GameWorld, Location, LocationId, Npc};

fn obj(entries: Vec<(&str, &str)>) -> JsonValue {
    JsonValue::Object(entries.into_iter().map(|(k, v)| (k.to_string(), JsonValue::String(v.to_string()))).collect())
}

fn world() -> GameWorld {
    let mut w = GameWorld::new("Test", create_sample_fighter("Roland"));
    w.known_locations.push(Location { id: LocationId(3), name: "Market Square".to_string() });
    w.npcs.push(Npc {
        name: "Mira".to_string(),
        disposition: Disposition::Friendly,
        occupation: Some("Shopkeeper".to_string()),
        location_id: Some(LocationId(3)),
        known_information: vec!["The Old Mine is haunted".to_string(), "Prices rose last week".to_string()],
    });
    w.npcs.push(Npc {
        name: "Stranger".to_string(),
        disposition: Disposition::Neutral,
        occupation: None,
        location_id: Some(LocationId(99)),
        known_information: vec![],
    });
    w
}

#[test]
fn state_queries_report_what_is_asked() {
    let w = world();
    assert_eq!(
        query_entity_state(&obj(vec![("entity_name", "mira"), ("state_type", "disposition")]), &w),
        "=== State of Mira ===\n\nDisposition: friendly\n"
    );
    assert_eq!(
        query_entity_state(&obj(vec![("entity_name", "Mira"), ("state_type", "location")]), &w),
        "=== State of Mira ===\n\nLocation: Market Square\n"
    );
    assert_eq!(
        query_entity_state(&obj(vec![("entity_name", "Mira"), ("state_type", "knowledge")]), &w),
        "=== State of Mira ===\n\nKnowledge:\n  - The Old Mine is haunted\n  - Prices rose last week\n"
    );
    assert_eq!(
        query_entity_state(&obj(vec![("entity_name", "Stranger")]), &w),
        "=== State of Stranger ===\n\nDisposition: neutral\nLocation: Unknown\nOccupation: Unknown\n"
    );
    assert_eq!(
        query_entity_state(&obj(vec![("entity_name", "Stranger"), ("state_type", "knowledge")]), &w),
        "=== State of Stranger ===\n\nKnowledge: (none recorded)\n"
    );
    assert_eq!(query_entity_state(&obj(vec![]), &w), "Error: entity_name is required");
    assert_eq!(
        query_entity_state(&obj(vec![("entity_name", "Nobody")]), &w),
        "No entity found with name 'Nobody'. Check spelling or create the NPC first."
    );
}

#[test]
fn knowledge_queries_filter_by_topic() {
    let w = world();
    assert_eq!(
        query_entity_knowledge(&obj(vec![("entity_name", "Mira")]), &w),
        "=== Knowledge of Mira ===\n\nMira knows:\n  - The Old Mine is haunted\n  - Prices rose last week\n"
    );
    assert_eq!(
        query_entity_knowledge(&obj(vec![("entity_name", "Mira"), ("topic", "MINE")]), &w),
        "=== Knowledge of Mira ===\n\nMira knows:\n  - The Old Mine is haunted\n"
    );
    assert_eq!(
        query_entity_knowledge(&obj(vec![("entity_name", "Mira"), ("topic", "dragons")]), &w),
        "=== Knowledge of Mira ===\n\nNo knowledge about 'dragons'.\n"
    );
    assert_eq!(
        query_entity_knowledge(&obj(vec![("entity_name", "Stranger"), ("topic", "mine")]), &w),
        "=== Knowledge of Stranger ===\n\nNo recorded knowledge.\n"
    );
    assert_eq!(query_entity_knowledge(&obj(vec![("topic", "mine")]), &w), "Error: entity_name is required");
}
