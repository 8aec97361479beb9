use chronicler::ids::{ConsequenceId, EntityId};
use chronicler::relevance::{extract_json, relevance_from_reply, state_inference_prompt};

#[test]
fn replies_name_pending_consequences_and_found_entities_once() {
    let a = ConsequenceId(0x1234_5678_9abc_4def_8123_4567_89ab_cdef);
    let b = ConsequenceId(0x0000_0000_0000_4000_8000_0000_0000_0001);
    let named = vec![
        b.to_text(),
        "not-an-id".to_string(),
        a.to_text(),
    ];
    let found = vec![Some(EntityId(7)), None, Some(EntityId(3)), Some(EntityId(7))];
    let r = relevance_from_reply(&named, &found, Some("because".to_string()), &[a, b]);
    assert_eq!(r.triggered_consequences, vec![b, a]);
    assert_eq!(r.relevant_entities, vec![EntityId(7), EntityId(3)]);
    assert!(r.relevant_facts.is_empty());
    assert_eq!(r.explanation.as_deref(), Some("because"));
}

#[test]
fn extracted_json_is_a_piece_of_the_reply() {
    let reply = "Sure!\n```json\n {\"a\": 1} \n```\nDone.";
    let json = extract_json(reply);
    assert_eq!(json, "{\"a\": 1}");
    assert!(reply.contains(json));
    let plain = "  {\"b\": 2}\n";
    assert_eq!(extract_json(plain), "{\"b\": 2}");
}

#[test]
fn state_inference_asks_only_about_long_enough_narratives_and_known_entities() {
    let entities = vec!["Mira".to_string(), "Guard".to_string()];
    assert!(state_inference_prompt("Mira smiles.", &entities).is_none());
    assert!(state_inference_prompt("Mira smiles warmly at you.", &[]).is_none());
    let prompt = state_inference_prompt("Mira smiles warmly at you.", &entities).unwrap();
    assert!(prompt.starts_with("Analyze this D&D narrative for implied state changes that weren't explicitly recorded.\n\n## Narrative\n\"Mira smiles warmly at you.\"\n\n## Known Entities\nMira, Guard\n\n## Instructions\n"));
    assert!(prompt.ends_with("If no state changes are implied, return empty array: {\"inferred_changes\": []}"));
    // Twenty bytes, though fewer characters.
    assert!(state_inference_prompt("ééééééééééé", &entities).is_some());
}
