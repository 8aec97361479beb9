use chronicler::intent::Intent;
use chronicler::json::{JsonNumber, JsonValue};
use chronicler::tool_parsing::parse_inventory_tool;

fn obj(entries: Vec<(&str, JsonValue)>) -> JsonValue {
    JsonValue::Object(entries.into_iter().map(|(k, v)| (k.to_string(), v)).collect())
}

fn whole(n: i64) -> JsonValue {
    JsonValue::Number(JsonNumber { whole: Some(n as i128), f32_bits: (n as f32).to_bits() })
}

fn float(x: f64) -> JsonValue {
    JsonValue::Number(JsonNumber { whole: None, f32_bits: (x as f32).to_bits() })
}

fn text(s: &str) -> JsonValue {
    JsonValue::String(s.to_string())
}

#[test]
fn test_parse_give_item() {
    let input = obj(vec![
        ("item_name", text("Longsword")),
        ("quantity", whole(1)),
        ("item_type", text("weapon")),
        ("description", text("A fine sword")),
        ("magical", JsonValue::Bool(false)),
        ("weight", float(3.0)),
        ("value_gp", float(15.0)),
    ]);

    let intent = parse_inventory_tool("give_item", &input);

    assert!(intent.is_some());
    if let Some(Intent::AddItem { item_name, quantity, item_type, description, magical, weight_bits, value_gp_bits }) =
        intent
    {
        assert_eq!(item_name, "Longsword");
        assert_eq!(quantity, 1);
        assert_eq!(item_type, Some("weapon".to_string()));
        assert_eq!(description, Some("A fine sword".to_string()));
        assert!(!magical);
        assert_eq!(weight_bits.map(f32::from_bits), Some(3.0));
        assert_eq!(value_gp_bits.map(f32::from_bits), Some(15.0));
    } else {
        panic!("Expected AddItem intent");
    }
}

#[test]
fn test_parse_give_item_minimal() {
    let input = obj(vec![("item_name", text("Arrow"))]);

    let intent = parse_inventory_tool("give_item", &input);

    assert!(intent.is_some());
    if let Some(Intent::AddItem { item_name, quantity, item_type, magical, .. }) = intent {
        assert_eq!(item_name, "Arrow");
        assert_eq!(quantity, 1);
        assert!(item_type.is_none());
        assert!(!magical);
    } else {
        panic!("Expected AddItem intent");
    }
}

#[test]
fn test_parse_give_item_missing_name() {
    let input = obj(vec![("quantity", whole(5))]);

    let intent = parse_inventory_tool("give_item", &input);
    assert!(intent.is_none());
}

#[test]
fn test_parse_remove_item() {
    let input = obj(vec![("item_name", text("Healing Potion")), ("quantity", whole(2))]);

    let intent = parse_inventory_tool("remove_item", &input);

    assert!(intent.is_some());
    if let Some(Intent::RemoveItem { item_name, quantity }) = intent {
        assert_eq!(item_name, "Healing Potion");
        assert_eq!(quantity, 2);
    } else {
        panic!("Expected RemoveItem intent");
    }
}

#[test]
fn test_parse_remove_item_default_quantity() {
    let input = obj(vec![("item_name", text("Torch"))]);

    let intent = parse_inventory_tool("remove_item", &input);

    assert!(intent.is_some());
    if let Some(Intent::RemoveItem { quantity, .. }) = intent {
        assert_eq!(quantity, 1);
    }
}

#[test]
fn test_parse_use_item() {
    let input = obj(vec![("item_name", text("Potion of Healing"))]);

    let intent = parse_inventory_tool("use_item", &input);

    assert!(intent.is_some());
    if let Some(Intent::UseItem { item_name, target_id }) = intent {
        assert_eq!(item_name, "Potion of Healing");
        assert!(target_id.is_none());
    } else {
        panic!("Expected UseItem intent");
    }
}

#[test]
fn test_parse_equip_item() {
    let input = obj(vec![("item_name", text("Chain Mail"))]);

    let intent = parse_inventory_tool("equip_item", &input);

    assert!(intent.is_some());
    if let Some(Intent::EquipItem { item_name }) = intent {
        assert_eq!(item_name, "Chain Mail");
    } else {
        panic!("Expected EquipItem intent");
    }
}

#[test]
fn test_parse_unequip_item() {
    let input = obj(vec![("slot", text("armor"))]);

    let intent = parse_inventory_tool("unequip_item", &input);

    assert!(intent.is_some());
    if let Some(Intent::UnequipItem { slot }) = intent {
        assert_eq!(slot, "armor");
    } else {
        panic!("Expected UnequipItem intent");
    }
}

#[test]
fn test_parse_adjust_gold() {
    let input = obj(vec![("amount", whole(-50)), ("reason", text("bought supplies"))]);

    let intent = parse_inventory_tool("adjust_gold", &input);

    assert!(intent.is_some());
    if let Some(Intent::AdjustGold { amount, reason }) = intent {
        assert_eq!(amount, -50);
        assert_eq!(reason, "bought supplies");
    } else {
        panic!("Expected AdjustGold intent");
    }
}

#[test]
fn test_parse_adjust_gold_default_reason() {
    let input = obj(vec![("amount", whole(100))]);

    let intent = parse_inventory_tool("adjust_gold", &input);

    assert!(intent.is_some());
    if let Some(Intent::AdjustGold { amount, reason }) = intent {
        assert_eq!(amount, 100);
        assert_eq!(reason, "gold adjustment");
    }
}

#[test]
fn test_parse_adjust_silver() {
    let input = obj(vec![("amount", whole(25)), ("reason", text("tips"))]);

    let intent = parse_inventory_tool("adjust_silver", &input);

    assert!(intent.is_some());
    if let Some(Intent::AdjustSilver { amount, reason }) = intent {
        assert_eq!(amount, 25);
        assert_eq!(reason, "tips");
    } else {
        panic!("Expected AdjustSilver intent");
    }
}

#[test]
fn test_parse_unknown_inventory_tool() {
    let input = obj(vec![]);

    let intent = parse_inventory_tool("unknown_tool", &input);
    assert!(intent.is_none());
}

#[test]
fn silver_has_its_own_default_reason_and_needs_an_amount() {
    match parse_inventory_tool("adjust_silver", &obj(vec![("amount", whole(-3))])) {
        Some(Intent::AdjustSilver { amount, reason }) => {
            assert_eq!(amount, -3);
            assert_eq!(reason, "silver adjustment");
        },
        _ => panic!("Expected AdjustSilver intent"),
    }
    assert!(parse_inventory_tool("adjust_silver", &obj(vec![("reason", text("tips"))])).is_none());
    // A whole weight is a number like any other.
    match parse_inventory_tool("give_item", &obj(vec![("item_name", text("Rope")), ("weight", whole(10))])) {
        Some(Intent::AddItem { weight_bits, value_gp_bits, .. }) => {
            assert_eq!(weight_bits.map(f32::from_bits), Some(10.0));
            assert!(value_gp_bits.is_none());
        },
        _ => panic!("Expected AddItem intent"),
    }
}

#[test]
fn the_first_entry_of_a_repeated_key_is_read() {
    let input = obj(vec![("item_name", text("Shield")), ("item_name", text("Spear"))]);
    match parse_inventory_tool("equip_item", &input) {
        Some(Intent::EquipItem { item_name }) => assert_eq!(item_name, "Shield"),
        _ => panic!("Expected EquipItem intent"),
    }
    // A string is no object: nothing can be read from it.
    assert!(parse_inventory_tool("equip_item", &text("Shield")).is_none());
}
