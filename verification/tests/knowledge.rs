use agnoshi::intent::{Intent, Translation};
use agnoshi::security::PermissionLevel;
use agnoshi::translate::knowledge::translate_knowledge;

#[test]
fn test_knowledge_search_json_injection_with_quotes() {
    let intent = Intent::KnowledgeSearch {
        query: r#"test","malicious":"true"#.to_string(),
        source: None,
    };
    let result = translate_knowledge(&intent).unwrap();
    // The JSON payload must remain valid and the injected key must not appear
    // as a top-level field.
    let payload = result.args.last().unwrap();
    let parsed: serde_json::Value = serde_json::from_str(payload).unwrap();
    assert_eq!(parsed["query"], r#"test","malicious":"true"#);
    assert!(parsed.get("malicious").is_none());
}

#[test]
fn test_knowledge_search_json_injection_with_backslash_newline() {
    let intent = Intent::KnowledgeSearch {
        query: "test\ninjection".to_string(),
        source: None,
    };
    let result = translate_knowledge(&intent).unwrap();
    let payload = result.args.last().unwrap();
    let parsed: serde_json::Value = serde_json::from_str(payload).unwrap();
    assert_eq!(parsed["query"], "test\ninjection");
    // Ensure the limit field is still intact (payload not broken).
    assert_eq!(parsed["limit"], 10);
}

#[test]
fn test_knowledge_search_normal_query() {
    let intent = Intent::KnowledgeSearch {
        query: "how to configure networking".to_string(),
        source: None,
    };
    let result = translate_knowledge(&intent).unwrap();
    let payload = result.args.last().unwrap();
    let parsed: serde_json::Value = serde_json::from_str(payload).unwrap();
    assert_eq!(parsed["query"], "how to configure networking");
    assert_eq!(parsed["limit"], 10);
}

#[test]
fn test_rag_query_json_injection_with_quotes() {
    let intent = Intent::RagQuery {
        query: r#"test","malicious":"true"#.to_string(),
    };
    let result = translate_knowledge(&intent).unwrap();
    let payload = result.args.last().unwrap();
    let parsed: serde_json::Value = serde_json::from_str(payload).unwrap();
    assert_eq!(parsed["query"], r#"test","malicious":"true"#);
    assert!(parsed.get("malicious").is_none());
    assert_eq!(parsed["top_k"], 5);
}

#[test]
fn test_rag_query_json_injection_with_backslash_newline() {
    let intent = Intent::RagQuery {
        query: "test\\ninjection".to_string(),
    };
    let result = translate_knowledge(&intent).unwrap();
    let payload = result.args.last().unwrap();
    let parsed: serde_json::Value = serde_json::from_str(payload).unwrap();
    assert_eq!(parsed["query"], "test\\ninjection");
    assert_eq!(parsed["top_k"], 5);
}
