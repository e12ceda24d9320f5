use reservoir::commands::{chronological_messages, is_allowed_role, keyword_search};
use reservoir::node::{persistable_nodes, save_action, MessageNode, SaveAction};
use reservoir::retrieval::{choose_similar, dedup_by_keys, deduplicate_message_nodes, expand_with_pairs, trimmed};

fn node(role: &str, content: &str, timestamp: i64) -> MessageNode {
    MessageNode {
        trace_id: format!("t{}", timestamp),
        partition: "default".to_string(),
        instance: "default".to_string(),
        role: role.to_string(),
        content: Some(content.to_string()),
        url: None,
        timestamp,
    }
}

fn contents(ns: &[MessageNode]) -> Vec<String> {
    ns.iter().map(|n| n.content.clone().unwrap_or_default()).collect()
}

#[test]
fn dedup_ignores_case_and_surrounding_space() {
    let ns = vec![node("user", "Hello", 1), node("user", "  hello ", 2), node("user", "other", 3), node("user", "HELLO", 4)];
    let d = deduplicate_message_nodes(ns);
    assert_eq!(contents(&d), vec!["Hello".to_string(), "other".to_string()]);
    assert_eq!(d[0].timestamp, 1);
}

#[test]
fn dedup_by_given_keys_keeps_first() {
    let ns = vec![node("user", "a", 1), node("user", "b", 2), node("user", "c", 3)];
    let keys = vec!["k".to_string(), "j".to_string(), "k".to_string()];
    let d = dedup_by_keys(ns, &keys);
    assert_eq!(contents(&d), vec!["a".to_string(), "b".to_string()]);
}

#[test]
fn expansion_and_choice() {
    let e = expand_with_pairs(vec![node("user", "a", 1)], vec![node("assistant", "b", 2)]);
    assert_eq!(contents(&e), vec!["a".to_string(), "b".to_string()]);
    let small = choose_similar(e, vec![node("user", "x", 5), node("user", "X", 6), node("user", "y", 7)]);
    assert_eq!(contents(&small), vec!["a".to_string(), "b".to_string()]);
    let big = choose_similar(vec![], vec![node("user", "x", 5), node("user", "y", 6), node("user", "z", 7)]);
    assert_eq!(contents(&big), vec!["x".to_string(), "y".to_string(), "z".to_string()]);
}

#[test]
fn system_nodes_are_never_persisted() {
    let ns = vec![node("system", "s", 1), node("user", "u", 2), node("SyStEm", "s2", 3), node("assistant", "a", 4)];
    let kept = persistable_nodes(&ns);
    assert_eq!(contents(&kept), vec!["u".to_string(), "a".to_string()]);
    assert_eq!(save_action(&ns[2]), SaveAction::Skip);
    assert_eq!(save_action(&node("ASSISTANT", "a", 1)), SaveAction::CreateAndLink);
    assert_eq!(save_action(&node("user", "u", 1)), SaveAction::Create);
}

#[test]
fn view_orders_oldest_first() {
    let ms = chronological_messages(vec![node("user", "c", 30), node("user", "a", 10), node("assistant", "b", 20)]);
    let got: Vec<&str> = ms.iter().map(|m| m.content.as_str()).collect();
    assert_eq!(got, vec!["a", "b", "c"]);
}

#[test]
fn keyword_search_is_case_insensitive_and_bounded() {
    let ns = vec![node("user", "Rust is fun", 1), node("user", "python", 2), node("user", "RUSTY", 3), node("user", "rust again", 4)];
    let hits = keyword_search(&ns, "rust", 2);
    let got: Vec<&str> = hits.iter().map(|m| m.content.as_str()).collect();
    assert_eq!(got, vec!["Rust is fun", "RUSTY"]);
    assert_eq!(keyword_search(&ns, "missing", 10).len(), 0);
}

#[test]
fn ingest_roles() {
    assert!(is_allowed_role(&"user".to_string()));
    assert!(is_allowed_role(&"system".to_string()));
    assert!(!is_allowed_role(&"tool".to_string()));
}

#[test]
fn vector_index_is_over_fetched() {
    assert_eq!(reservoir::retrieval::candidate_count(7), 21);
    assert_eq!(reservoir::retrieval::candidate_count(usize::MAX), usize::MAX);
}

#[test]
fn trimming_matches_unicode_white_space() {
    for s in ["  a b \t\n", "\u{3000}x\u{2028}", "   ", "", "no-space", "\u{85}\u{a0} é \u{205f}", "a\u{200b}"] {
        assert_eq!(trimmed(s), s.trim(), "on {:?}", s);
    }
    assert_eq!(trimmed("  hello  "), "hello");
}
