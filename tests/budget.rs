use reservoir::budget::truncate_messages_if_needed;
use reservoir::checks::{get_last_message_in_chat_request, is_last_message_too_big, RequestError};
use reservoir::compress::{compress_system_context, message_to_string};
use reservoir::message::{ChatRequest, Message};
use reservoir::model::{ModelInfo, ProviderEnv};
use reservoir::tokens::{count_chat_tokens, count_single_message_tokens, fits_within};

fn msg(role: &str, content: &str) -> Message {
    Message { role: role.to_string(), content: content.to_string() }
}

fn no_env() -> ProviderEnv {
    ProviderEnv {
        openai_base_url: None,
        ollama_base_url: None,
        mistral_base_url: None,
        ollama_host: None,
        openai_key: None,
        mistral_key: None,
        gemini_key: None,
        ollama_key: None,
    }
}

#[test]
fn chat_count_adds_priming_to_message_counts() {
    let a = msg("user", "hello there");
    let b = msg("assistant", "general kenobi");
    let total = count_chat_tokens(&[a.clone(), b.clone()]);
    assert_eq!(total, count_single_message_tokens(&a) + count_single_message_tokens(&b) + 3);
    assert_eq!(count_chat_tokens(&[]), 3);
}

#[test]
fn single_count_grows_with_content() {
    let short = msg("user", "hi");
    let long = msg("user", "this is a considerably longer sentence with many more words in it");
    let s = count_single_message_tokens(&short);
    assert!(s >= 6);
    assert!(count_single_message_tokens(&long) > s);
}

#[test]
fn fits_within_matches_count() {
    let ms = vec![msg("user", "one two three four five")];
    let total = count_chat_tokens(&ms);
    assert!(fits_within(&ms, total));
    assert!(!fits_within(&ms, total - 1));
    assert!(!fits_within(&ms, 2));
}

#[test]
fn truncation_drops_oldest_removable_first() {
    let filler = "lorem ipsum dolor sit amet ".repeat(20);
    let mut ms = vec![
        msg("system", "rules"),
        msg("user", &filler),
        msg("assistant", &filler),
        msg("user", "final question"),
    ];
    let keep = vec![ms[0].clone(), ms[2].clone(), ms[3].clone()];
    let limit = count_chat_tokens(&keep);
    truncate_messages_if_needed(&mut ms, limit);
    let got: Vec<&str> = ms.iter().map(|m| m.content.as_str()).collect();
    assert_eq!(got, vec!["rules", filler.as_str(), "final question"]);
    assert!(count_chat_tokens(&ms) <= limit);
}

#[test]
fn truncation_keeps_system_and_final_when_budget_unreachable() {
    let filler = "lorem ipsum dolor sit amet ".repeat(20);
    let mut ms = vec![
        msg("user", "old"),
        msg("system", &filler),
        msg("assistant", "older reply"),
        msg("system", "second rule"),
        msg("user", &filler),
    ];
    truncate_messages_if_needed(&mut ms, 10);
    let got: Vec<(&str, &str)> = ms.iter().map(|m| (m.role.as_str(), m.content.as_str())).collect();
    assert_eq!(got, vec![("system", filler.as_str()), ("system", "second rule"), ("user", filler.as_str())]);
}

#[test]
fn truncation_leaves_fitting_list_alone() {
    let mut ms = vec![msg("user", "a"), msg("assistant", "b"), msg("user", "c")];
    truncate_messages_if_needed(&mut ms, 1_000);
    assert_eq!(ms.len(), 3);
}

#[test]
fn last_message_must_be_user() {
    let empty = ChatRequest { model: "m".to_string(), messages: vec![] };
    assert_eq!(get_last_message_in_chat_request(&empty), Err(RequestError::NoMessages));
    let assistant = ChatRequest { model: "m".to_string(), messages: vec![msg("user", "a"), msg("assistant", "b")] };
    assert_eq!(get_last_message_in_chat_request(&assistant), Err(RequestError::LastMessageNotUser));
    let ok = ChatRequest { model: "m".to_string(), messages: vec![msg("system", "s"), msg("user", "question")] };
    assert_eq!(get_last_message_in_chat_request(&ok), Ok("question"));
}

#[test]
fn oversize_message_gets_length_reply() {
    let model = ModelInfo::new("gpt-4o".to_string(), &no_env());
    let big = msg("user", &" hi".repeat(200_000));
    let count = count_single_message_tokens(&big);
    assert!(count > 128_000);
    let reply = is_last_message_too_big(&big, &model).expect("oversize reply");
    assert_eq!(reply.choices.len(), 1);
    assert_eq!(reply.choices[0].finish_reason, "length");
    assert_eq!(reply.choices[0].index, 0);
    assert_eq!(reply.choices[0].message.role, "assistant");
    assert_eq!(
        reply.choices[0].message.content,
        format!(
            "Your last message is too long. It contains approximately {} tokens, which exceeds the maximum limit of 128000. Please shorten your message.",
            count
        )
    );
    assert!(reply.id.is_none() && reply.usage.is_none());
    assert!(is_last_message_too_big(&msg("user", "small"), &model).is_none());
}

#[test]
fn system_run_is_folded_into_first() {
    let ms = vec![msg("system", "A"), msg("system", "B"), msg("user", "q")];
    let c = compress_system_context(&ms);
    let got: Vec<(&str, &str)> = c.iter().map(|m| (m.role.as_str(), m.content.as_str())).collect();
    assert_eq!(got, vec![("system", "A\nSystem Note: B"), ("user", "q")]);
}

#[test]
fn folding_labels_every_role() {
    let ms = vec![
        msg("system", "A"),
        msg("user", "u"),
        msg("assistant", "a"),
        msg("tool", "t"),
        msg("system", "B"),
        msg("user", "q"),
    ];
    let c = compress_system_context(&ms);
    assert_eq!(c.len(), 2);
    assert_eq!(c[0].content, "A\nUser: u\nAssistant: a\ntool: t\nSystem Note: B");
    assert_eq!(c[1].content, "q");
}

#[test]
fn compression_is_idempotent() {
    let ms = vec![msg("system", "A"), msg("user", "x"), msg("system", "B"), msg("user", "q")];
    let once = compress_system_context(&ms);
    let twice = compress_system_context(&once);
    let a: Vec<(&str, &str)> = once.iter().map(|m| (m.role.as_str(), m.content.as_str())).collect();
    let b: Vec<(&str, &str)> = twice.iter().map(|m| (m.role.as_str(), m.content.as_str())).collect();
    assert_eq!(a, b);
}

#[test]
fn compression_leaves_other_lists_alone() {
    let late = vec![msg("user", "x"), msg("system", "A"), msg("system", "B")];
    assert_eq!(compress_system_context(&late).len(), 3);
    let single = vec![msg("system", "A"), msg("user", "q")];
    assert_eq!(compress_system_context(&single).len(), 2);
    assert_eq!(compress_system_context(&vec![]).len(), 0);
}

#[test]
fn message_lines_carry_role_labels() {
    assert_eq!(message_to_string(&msg("user", "x")), "User: x");
    assert_eq!(message_to_string(&msg("assistant", "x")), "Assistant: x");
    assert_eq!(message_to_string(&msg("system", "x")), "System Note: x");
    assert_eq!(message_to_string(&msg("critic", "x")), "critic: x");
}
