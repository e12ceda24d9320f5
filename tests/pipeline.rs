use reservoir::checks::RequestError;
use reservoir::enrich::{RECENT_HEADER, SEMANTIC_HEADER};
use reservoir::message::{ChatRequest, ChatResponse, Choice, Message};
use reservoir::model::{ModelInfo, ProviderEnv};
use reservoir::node::{save_action, MessageNode, SaveAction};
use reservoir::pipeline::{upstream_outcome, Action, Event, Pipeline, PipelineError, Stage, UpstreamError};

fn msg(role: &str, content: &str) -> Message {
    Message { role: role.to_string(), content: content.to_string() }
}

fn node(role: &str, content: &str, trace: &str, timestamp: i64) -> MessageNode {
    MessageNode {
        trace_id: trace.to_string(),
        partition: "p2".to_string(),
        instance: "p2".to_string(),
        role: role.to_string(),
        content: Some(content.to_string()),
        url: None,
        timestamp,
    }
}

fn no_env() -> ProviderEnv {
    ProviderEnv {
        openai_base_url: None,
        ollama_base_url: None,
        mistral_base_url: None,
        ollama_host: None,
        openai_key: Some("sk-test".to_string()),
        mistral_key: None,
        gemini_key: None,
        ollama_key: None,
    }
}

fn request(messages: Vec<Message>) -> ChatRequest {
    ChatRequest { model: "gpt-4o".to_string(), messages }
}

fn start(messages: Vec<Message>, scope: &str) -> (Pipeline, Action) {
    let model = ModelInfo::new("gpt-4o".to_string(), &no_env());
    Pipeline::start(request(messages), model, scope.to_string(), scope.to_string(), "trace-1".to_string())
}

fn reply(text: &str) -> ChatResponse {
    ChatResponse {
        id: Some("cmpl".to_string()),
        object: None,
        created: None,
        model: None,
        usage: None,
        choices: vec![Choice { message: msg("assistant", text), finish_reason: "stop".to_string(), index: 0 }],
    }
}

fn step(p: &mut Pipeline, e: Event) -> Action {
    assert!(p.accepts(&e));
    p.step(e)
}

/// Runs a request to the point where it is forwarded; returns the saved
/// inbound nodes and the forwarded messages.
fn run_to_forward(
    p: &mut Pipeline,
    similar: Option<Vec<MessageNode>>,
    pairs: Option<Vec<MessageNode>>,
    near: Option<Vec<MessageNode>>,
    recent: Option<Vec<MessageNode>>,
) -> (Vec<MessageNode>, ChatRequest) {
    let mut action = step(p, Event::Similar(similar));
    assert!(matches!(action, Action::FindConnections { .. }));
    action = step(p, Event::Pairs(pairs));
    if let Action::FindNeighbourhood { .. } = action {
        action = step(p, Event::Neighbourhood(near));
    }
    assert!(matches!(action, Action::GetRecent { count: 15, .. }));
    let saved = match step(p, Event::Recent(recent)) {
        Action::SaveInbound { nodes } => nodes,
        _ => panic!("expected inbound save"),
    };
    match step(p, Event::InboundSaved(true)) {
        Action::Forward { base_url, key, request } => {
            assert_eq!(base_url, "https://api.openai.com/v1/chat/completions");
            assert_eq!(key, "sk-test");
            (saved, request)
        }
        _ => panic!("expected forward"),
    }
}

fn pairs_of(r: &ChatRequest) -> Vec<(String, String)> {
    r.messages.iter().map(|m| (m.role.clone(), m.content.clone())).collect()
}

#[test]
fn empty_history_forwards_headers_and_prompt() {
    let (mut p, action) = start(vec![msg("user", "hi")], "p1");
    match action {
        Action::FindSimilar { text, partition, instance, top_k } => {
            assert_eq!((text.as_str(), partition.as_str(), instance.as_str(), top_k), ("hi", "p1", "p1", 7));
        }
        _ => panic!("expected retrieval"),
    }
    let (saved, forwarded) = run_to_forward(&mut p, Some(vec![]), Some(vec![]), None, Some(vec![]));
    assert_eq!(saved.len(), 1);
    assert_eq!(saved[0].role, "user");
    assert_eq!(saved[0].trace_id, "trace-1");
    assert_eq!(forwarded.model, "gpt-4o");
    assert_eq!(
        pairs_of(&forwarded),
        vec![
            ("system".to_string(), format!("{}\nSystem Note: {}", SEMANTIC_HEADER, RECENT_HEADER)),
            ("user".to_string(), "hi".to_string()),
        ]
    );
    let reply_node = match step(&mut p, Event::Upstream(Ok(reply("hello!")))) {
        Action::SaveReply { node } => node,
        _ => panic!("expected reply save"),
    };
    assert_eq!(reply_node.trace_id, saved[0].trace_id);
    assert_eq!(reply_node.role, "assistant");
    assert_eq!(reply_node.content.as_deref(), Some("hello!"));
    assert_eq!(save_action(&reply_node), SaveAction::CreateAndLink);
    assert_eq!(save_action(&saved[0]), SaveAction::Create);
    assert!(matches!(step(&mut p, Event::ReplySaved(true)), Action::ConnectSynapses));
    match step(&mut p, Event::SynapsesConnected(true)) {
        Action::Respond(r) => assert_eq!(r.choices[0].message.content, "hello!"),
        _ => panic!("expected response"),
    }
    assert_eq!(p.stage, Stage::Done);
}

#[test]
fn oversize_prompt_is_answered_in_band() {
    let (p, action) = start(vec![msg("user", &" hi".repeat(200_000))], "p1");
    assert_eq!(p.stage, Stage::Done);
    match action {
        Action::Respond(r) => assert_eq!(r.choices[0].finish_reason, "length"),
        _ => panic!("expected synthetic response"),
    }
}

#[test]
fn retrieved_history_is_injected() {
    let (mut p, _) = start(vec![msg("user", "python sorting tips")], "p2");
    let prior_user = node("user", "how do I sort in Python?", "t0", 10);
    let prior_reply = node("assistant", "use sorted()", "t0", 11);
    let (_, forwarded) = run_to_forward(
        &mut p,
        Some(vec![prior_user.clone()]),
        Some(vec![prior_user.clone(), prior_reply.clone()]),
        Some(vec![]),
        Some(vec![prior_reply.clone(), prior_user.clone()]),
    );
    let got = pairs_of(&forwarded);
    let s = |r: &str, c: &str| (r.to_string(), c.to_string());
    let similar_block = format!(
        "{}\nUser: how do I sort in Python?\nUser: how do I sort in Python?\nAssistant: use sorted()\nSystem Note: {}",
        SEMANTIC_HEADER, RECENT_HEADER
    );
    assert_eq!(
        got,
        vec![
            s("system", &similar_block),
            s("user", "how do I sort in Python?"),
            s("assistant", "use sorted()"),
            s("user", "python sorting tips"),
        ]
    );
}

#[test]
fn non_user_last_message_is_rejected() {
    let (p, action) = start(vec![msg("user", "q"), msg("assistant", "a")], "p1");
    assert_eq!(p.stage, Stage::Done);
    match action {
        Action::Fail(e) => assert_eq!(e, PipelineError::BadRequest(RequestError::LastMessageNotUser)),
        _ => panic!("expected failure"),
    }
    let (_, action) = start(vec![], "p1");
    assert!(matches!(action, Action::Fail(PipelineError::BadRequest(RequestError::NoMessages))));
}

#[test]
fn system_hints_are_folded_and_not_saved() {
    let (mut p, _) = start(vec![msg("system", "A"), msg("system", "B"), msg("user", "q")], "p1");
    let (saved, forwarded) = run_to_forward(&mut p, None, None, None, None);
    assert_eq!(saved.len(), 1);
    assert_eq!(saved[0].content.as_deref(), Some("q"));
    let got = pairs_of(&forwarded);
    assert_eq!(got.len(), 2);
    assert_eq!(got[0].0, "system");
    assert_eq!(
        got[0].1,
        format!("A\nSystem Note: {}\nSystem Note: {}\nSystem Note: B", SEMANTIC_HEADER, RECENT_HEADER)
    );
    assert_eq!(got[1], ("user".to_string(), "q".to_string()));
}

#[test]
fn failed_retrieval_still_forwards() {
    let (mut p, _) = start(vec![msg("user", "hello")], "p3");
    let recent = vec![node("assistant", "earlier answer", "t9", 5)];
    let (saved, forwarded) = run_to_forward(&mut p, None, None, None, Some(recent));
    assert_eq!(saved.len(), 1);
    let got = pairs_of(&forwarded);
    assert_eq!(got.len(), 3);
    assert_eq!(got[0].1, format!("{}\nSystem Note: {}", SEMANTIC_HEADER, RECENT_HEADER));
    assert_eq!(got[1], ("assistant".to_string(), "earlier answer".to_string()));
    assert_eq!(got[2].1, "hello");
}

#[test]
fn failed_inbound_save_fails_request() {
    let (mut p, _) = start(vec![msg("user", "hello")], "p3");
    step(&mut p, Event::Similar(None));
    step(&mut p, Event::Pairs(None));
    step(&mut p, Event::Recent(None));
    match step(&mut p, Event::InboundSaved(false)) {
        Action::Fail(e) => assert_eq!(e, PipelineError::StoreUnavailable),
        _ => panic!("expected failure"),
    }
}

#[test]
fn upstream_failure_is_surfaced() {
    let (mut p, _) = start(vec![msg("user", "hello")], "p3");
    run_to_forward(&mut p, None, None, None, None);
    let err = upstream_outcome(429, "slow down".to_string()).unwrap_err();
    match step(&mut p, Event::Upstream(Err(err))) {
        Action::Fail(e) => assert_eq!(
            e,
            PipelineError::Upstream(UpstreamError::Status { status: 429, body: "slow down".to_string() })
        ),
        _ => panic!("expected failure"),
    }
    assert_eq!(upstream_outcome(200, "{}".to_string()), Ok("{}".to_string()));
}

#[test]
fn failed_reply_save_still_responds() {
    let (mut p, _) = start(vec![msg("user", "hello")], "p3");
    run_to_forward(&mut p, None, None, None, None);
    step(&mut p, Event::Upstream(Ok(reply("r"))));
    assert!(matches!(step(&mut p, Event::ReplySaved(false)), Action::Respond(_)));
}

#[test]
fn neighbourhood_replaces_similar_set_when_large() {
    let (mut p, _) = start(vec![msg("user", "q")], "p2");
    let a = node("user", "alpha", "ta", 1);
    let near = vec![node("user", "n1", "t1", 1), node("user", "n2", "t2", 2), node("user", "N1 ", "t3", 3), node("user", "n3", "t4", 4)];
    let (_, forwarded) = run_to_forward(&mut p, Some(vec![a]), Some(vec![]), Some(near), Some(vec![]));
    assert_eq!(forwarded.messages.len(), 2);
    assert_eq!(
        forwarded.messages[0].content,
        format!("{}\nUser: n1\nUser: n2\nUser: n3\nSystem Note: {}", SEMANTIC_HEADER, RECENT_HEADER)
    );
}

#[test]
fn wrong_event_is_not_accepted() {
    let (p, _) = start(vec![msg("user", "q")], "p2");
    assert!(!p.accepts(&Event::Recent(None)));
    assert!(p.accepts(&Event::Similar(None)));
}
