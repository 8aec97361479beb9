use chronicler::ids::EntityId;
use chronicler::knowledge::{KnowledgeEntry, KnowledgeSource, VerificationStatus};


#[test]
fn test_knowledge_entry_creation() {
    let entity_id = EntityId::new();
    let entry = KnowledgeEntry::new(
        entity_id,
        "The treasure is hidden in the cave",
        VerificationStatus::True,
        5,
    );

    assert_eq!(entry.knowing_entity, entity_id);
    assert!(entry.content.contains("treasure"));
    assert!(entry.is_current);
    assert_eq!(entry.verification_status, VerificationStatus::True);
}

#[test]
fn test_knowledge_with_source() {
    let entity_id = EntityId::new();
    let source_id = EntityId::new();

    let entry = KnowledgeEntry::new(
        entity_id,
        "The king is planning a war",
        VerificationStatus::Unknown,
        10,
    )
    .with_source(KnowledgeSource::Entity(source_id))
    .with_context("Overheard at the tavern");

    assert!(matches!(
        entry.learned_from,
        Some(KnowledgeSource::Entity(_))
    ));
    assert!(entry.context.is_some());
}

#[test]
fn test_verification_status_parsing() {
    assert_eq!(VerificationStatus::parse("true"), VerificationStatus::True);
    assert_eq!(VerificationStatus::parse("lie"), VerificationStatus::False);
    assert_eq!(
        VerificationStatus::parse("rumor"),
        VerificationStatus::Unknown
    );
    assert_eq!(
        VerificationStatus::parse("partial"),
        VerificationStatus::PartiallyTrue
    );
}

#[test]
fn test_supersede_knowledge() {
    let entity_id = EntityId::new();
    let mut entry =
        KnowledgeEntry::new(entity_id, "Old information", VerificationStatus::True, 1);

    assert!(entry.is_current);
    entry.supersede();
    assert!(!entry.is_current);
}
