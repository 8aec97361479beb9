use chronicler::world::{create_sample_fighter, end_combat, next_turn, start_combat, GameMode, GameWorld};


#[test]
fn test_start_combat() {
    let character = create_sample_fighter("Test");
    let mut world = GameWorld::new("Test Campaign", character);

    assert!(matches!(world.mode, GameMode::Exploration));
    assert!(world.combat.is_none());

    start_combat(&mut world);

    assert!(matches!(world.mode, GameMode::Combat));
    assert!(world.combat.is_some());
}

#[test]
fn test_end_combat() {
    let character = create_sample_fighter("Test");
    let mut world = GameWorld::new("Test Campaign", character);

    start_combat(&mut world);
    assert!(matches!(world.mode, GameMode::Combat));

    end_combat(&mut world);

    assert!(matches!(world.mode, GameMode::Exploration));
    assert!(world.combat.is_none());
}

#[test]
fn test_next_turn() {
    let character = create_sample_fighter("Test");
    let mut world = GameWorld::new("Test Campaign", character);

    // No combat active
    assert!(next_turn(&mut world).is_none());

    // Start combat
    start_combat(&mut world);

    // Now next_turn should work
    let turn = next_turn(&mut world);
    assert!(turn.is_some());
}
