use chronicler::ids::{CharacterId, ConsequenceId, EntityId};
use chronicler::knowledge::KnowledgeId;

fn is_v4(bits: u128) -> bool {
    bits & 0x0000_0000_0000_F000_C000_0000_0000_0000 == 0x0000_0000_0000_4000_8000_0000_0000_0000
}

#[test]
fn new_identifiers_are_version_4_and_differ() {
    let a = CharacterId::new();
    let b = CharacterId::new();
    assert!(is_v4(a.0) && is_v4(b.0));
    assert_ne!(a, b);
    assert!(is_v4(EntityId::new().0));
    assert!(is_v4(ConsequenceId::new().0));
}

#[test]
fn identifiers_print_as_hyphenated_lower_case_hex() {
    let id = ConsequenceId(0x0123_4567_89ab_cdef_0011_2233_4455_6677);
    assert_eq!(id.to_text(), "01234567-89ab-cdef-0011-223344556677");
    let k = KnowledgeId(0xFFFF_0000_FFFF_4000_8000_0000_0000_00AB);
    assert_eq!(k.to_text(), "ffff0000-ffff-4000-8000-0000000000ab");
    let text = KnowledgeId::new().to_text();
    assert_eq!(text.len(), 36);
    assert_eq!(&text[14..15], "4");
}
