use chronicler::ids::{ConsequenceId, EntityId, FactId};
use chronicler::relevance::{extract_json, RelevanceResult};


#[test]
fn test_extract_json_plain() {
    let text = r#"{"triggered_consequences": [], "relevant_entities": []}"#;
    assert_eq!(extract_json(text), text);
}

#[test]
fn test_extract_json_markdown() {
    let text = r#"```json
{"triggered_consequences": ["abc"], "relevant_entities": ["Guard"]}
```"#;
    let expected = r#"{"triggered_consequences": ["abc"], "relevant_entities": ["Guard"]}"#;
    assert_eq!(extract_json(text), expected);
}

#[test]
fn test_extract_json_markdown_no_specifier() {
    let text = r#"```
{"triggered_consequences": []}
```"#;
    let expected = r#"{"triggered_consequences": []}"#;
    assert_eq!(extract_json(text), expected);
}

#[test]
fn test_extract_json_with_whitespace() {
    let text = r#"
  {"triggered_consequences": []}
  "#;
    let result = extract_json(text);
    assert!(result.starts_with('{'));
    assert!(result.ends_with('}'));
}

#[test]
fn test_extract_json_nested_backticks() {
    // If there's text before the code block
    let text = r#"Here is the JSON:
```json
{"triggered_consequences": ["id1"]}
```"#;
    let expected = r#"{"triggered_consequences": ["id1"]}"#;
    assert_eq!(extract_json(text), expected);
}

#[test]
fn test_relevance_result_empty() {
    let result = RelevanceResult::default();
    assert!(result.is_empty());
    assert!(!result.has_triggered_consequences());
    assert!(!result.has_relevant_context());
}

#[test]
fn test_relevance_result_with_consequences() {
    let result = RelevanceResult {
        triggered_consequences: vec![ConsequenceId::new()],
        relevant_facts: vec![],
        relevant_entities: vec![],
        explanation: None,
    };
    assert!(!result.is_empty());
    assert!(result.has_triggered_consequences());
    assert!(!result.has_relevant_context());
}

#[test]
fn test_relevance_result_with_facts() {
    let result = RelevanceResult {
        triggered_consequences: vec![],
        relevant_facts: vec![FactId::new()],
        relevant_entities: vec![],
        explanation: None,
    };
    assert!(!result.is_empty());
    assert!(!result.has_triggered_consequences());
    assert!(result.has_relevant_context());
}

#[test]
fn test_relevance_result_with_entities() {
    let result = RelevanceResult {
        triggered_consequences: vec![],
        relevant_facts: vec![],
        relevant_entities: vec![EntityId::new()],
        explanation: None,
    };
    assert!(!result.is_empty());
    assert!(!result.has_triggered_consequences());
    assert!(result.has_relevant_context());
}

#[test]
fn test_relevance_result_with_explanation() {
    let result = RelevanceResult {
        triggered_consequences: vec![],
        relevant_facts: vec![],
        relevant_entities: vec![],
        explanation: Some("Test explanation".to_string()),
    };
    // Having only an explanation doesn't make it non-empty
    assert!(result.is_empty());
    assert_eq!(result.explanation, Some("Test explanation".to_string()));
}

