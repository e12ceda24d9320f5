use reservoir::enrich::{enrich_chat_request, RECENT_HEADER, SEMANTIC_HEADER};
use reservoir::message::{ChatRequest, Message};
use reservoir::node::MessageNode;

fn create_dummy_node(role: &str, content: &str, timestamp: i64) -> MessageNode {
    MessageNode {
        trace_id: format!("trace-{}", timestamp),
        partition: "test".to_string(),
        instance: "test_instance".to_string(),
        role: role.to_string(),
        content: Some(content.to_string()),
        url: None,
        timestamp,
    }
}

fn create_dummy_message(role: &str, content: &str) -> Message {
    Message { role: role.to_string(), content: content.to_string() }
}

const SEMANTIC: &str = "The following is the result of a semantic search \n        of the most related messages by cosine similarity to previous \n        conversations";
const RECENT: &str = "The following are the most recent messages in the \n        conversation in chronological order";

fn check_basic() {
    let similar = vec![
        create_dummy_node("user", "similar user 1", 100),
        create_dummy_node("assistant", "similar assistant 1", 101),
    ];
    let last = vec![
        create_dummy_node("user", "last user 1", 200),
        create_dummy_node("assistant", "last assistant 1", 201),
    ];
    let mut chat_request = ChatRequest {
        model: "test-model".to_string(),
        messages: vec![create_dummy_message("user", "current user message")],
    };

    let chat_request = enrich_chat_request(similar, last, &mut chat_request);

    let system_prompts: Vec<&str> = chat_request
        .messages
        .iter()
        .filter(|m| m.role == "system")
        .map(|m| m.content.trim())
        .collect();
    assert_eq!(system_prompts[0], SEMANTIC);
    assert_eq!(system_prompts[1], RECENT);

    let contents: Vec<&str> = chat_request.messages.iter().map(|m| m.content.as_str()).collect();
    assert!(contents.contains(&"similar user 1"));
    assert!(contents.contains(&"similar assistant 1"));
    assert!(contents.contains(&"last user 1"));
    assert!(contents.contains(&"last assistant 1"));
    assert!(contents.contains(&"current user message"));
}

fn check_with_initial_system_message() {
    let similar = vec![create_dummy_node("user", "similar user 1", 100)];
    let last = vec![create_dummy_node("user", "last user 1", 200)];
    let mut chat_request = ChatRequest {
        model: "test-model".to_string(),
        messages: vec![
            create_dummy_message("system", "initial system prompt"),
            create_dummy_message("user", "current user message"),
        ],
    };

    let chat_request = enrich_chat_request(similar, last, &mut chat_request);

    assert_eq!(chat_request.messages[0].role, "system");
    assert_eq!(chat_request.messages[0].content, "initial system prompt");
    let system_prompts: Vec<&str> = chat_request
        .messages
        .iter()
        .filter(|m| m.role == "system")
        .map(|m| m.content.trim())
        .collect();
    assert!(system_prompts.contains(&SEMANTIC));
    assert!(system_prompts.contains(&RECENT));
    let contents: Vec<&str> = chat_request.messages.iter().map(|m| m.content.as_str()).collect();
    assert!(contents.contains(&"similar user 1"));
    assert!(contents.contains(&"last user 1"));
    assert!(contents.contains(&"current user message"));
}

fn check_deduplication() {
    let similar = vec![
        create_dummy_node("user", "already exists", 100),
        create_dummy_node("assistant", "new similar", 101),
    ];
    let last = vec![create_dummy_node("user", "last user 1", 200)];
    let mut chat_request = ChatRequest {
        model: "test-model".to_string(),
        messages: vec![
            create_dummy_message("user", "already exists"),
            create_dummy_message("user", "current user message"),
        ],
    };

    let chat_request = enrich_chat_request(similar, last, &mut chat_request);

    let contents: Vec<&str> = chat_request.messages.iter().map(|m| m.content.as_str()).collect();
    let count = contents.iter().filter(|&&c| c == "already exists").count();
    assert_eq!(count, 2, "'already exists' should only appear twice due to current enrichment logic");
    assert!(contents.contains(&"new similar"));
    assert!(contents.contains(&"last user 1"));
    assert!(contents.contains(&"current user message"));
}

fn check_empty_enrichment() {
    let similar = Vec::new();
    let last = Vec::new();
    let mut chat_request = ChatRequest {
        model: "test-model".to_string(),
        messages: vec![create_dummy_message("user", "current user message")],
    };

    let initial_len = chat_request.messages.len();
    let chat_request = enrich_chat_request(similar, last, &mut chat_request);

    assert_eq!(chat_request.messages.len(), initial_len + 2);
    assert_eq!(chat_request.messages[0].role, "system");
    assert_eq!(chat_request.messages[1].role, "system");
    assert_eq!(chat_request.messages[2].role, "user");
}

#[test]
fn types_test_enrich_basic() {
    check_basic();
}

#[test]
fn types_test_enrich_with_initial_system_message() {
    check_with_initial_system_message();
}

#[test]
fn types_test_enrich_deduplication() {
    check_deduplication();
}

#[test]
fn types_test_enrich_empty_enrichment() {
    check_empty_enrichment();
}

#[test]
fn chat_request_test_enrich_basic() {
    check_basic();
}

#[test]
fn chat_request_test_enrich_with_initial_system_message() {
    check_with_initial_system_message();
}

#[test]
fn chat_request_test_enrich_deduplication() {
    check_deduplication();
}

#[test]
fn chat_request_test_enrich_empty_enrichment() {
    check_empty_enrichment();
}

#[test]
fn enrichment_block_is_contiguous_after_leading_system() {
    let similar = vec![create_dummy_node("user", "s1", 5), create_dummy_node("user", "", 6)];
    let recent = vec![create_dummy_node("assistant", "late", 300), create_dummy_node("user", "early", 100)];
    let request = ChatRequest {
        model: "m".to_string(),
        messages: vec![create_dummy_message("system", "sys"), create_dummy_message("user", "q")],
    };
    let r = enrich_chat_request(similar, recent, &request);
    let got: Vec<(&str, &str)> =
        r.messages.iter().map(|m| (m.role.as_str(), m.content.as_str())).collect();
    assert_eq!(
        got,
        vec![
            ("system", "sys"),
            ("system", SEMANTIC_HEADER),
            ("user", "s1"),
            ("system", RECENT_HEADER),
            ("user", "early"),
            ("assistant", "late"),
            ("user", "q"),
        ]
    );
}

#[test]
fn recent_turns_with_equal_stamps_keep_their_order() {
    let recent = vec![
        create_dummy_node("user", "b", 7),
        create_dummy_node("user", "a", 3),
        create_dummy_node("assistant", "c", 7),
    ];
    let request = ChatRequest { model: "m".to_string(), messages: vec![create_dummy_message("user", "q")] };
    let r = enrich_chat_request(Vec::new(), recent, &request);
    let contents: Vec<&str> = r.messages.iter().map(|m| m.content.as_str()).collect();
    assert_eq!(contents, vec![SEMANTIC_HEADER, RECENT_HEADER, "a", "b", "c", "q"]);
}
