use reservoir::config::{get_neo4j_uri, get_reservoir_port, serve_port, ReservoirConfig};
use reservoir::embedding::{EmbeddingClient, EmbeddingError};
use reservoir::model::{LanguageModel, ModelInfo, ProviderEnv};
use reservoir::route::{get_count_from_path, parse_u32, route_request, search_query, Route};
use reservoir::scope::{get_instance_from_path, get_partition_from_path, is_chat_request, resolve_scope};

fn env() -> ProviderEnv {
    ProviderEnv {
        openai_base_url: None,
        ollama_base_url: None,
        mistral_base_url: Some("https://mistral.example/v1/chat/completions".to_string()),
        ollama_host: Some("http://gpu:11434".to_string()),
        openai_key: Some("o".to_string()),
        mistral_key: Some("m".to_string()),
        gemini_key: None,
        ollama_key: Some("l".to_string()),
    }
}

#[test]
fn scope_from_paths() {
    assert_eq!(get_partition_from_path("/v1/chat/completions"), "default");
    assert_eq!(get_partition_from_path("/partition/alpha/v1/chat/completions"), "alpha");
    assert_eq!(get_instance_from_path("/partition/alpha/v1/chat/completions"), None);
    assert_eq!(get_instance_from_path("/partition/alpha/instance/beta/v1/chat/completions"), Some("beta".to_string()));
    assert_eq!(get_instance_from_path("/v1/chat/completions"), None);
    assert!(is_chat_request("/partition/a/v1/chat/completions"));
    assert!(!is_chat_request("/api/tags"));
    assert_eq!(resolve_scope(None, None), ("default".to_string(), "default".to_string()));
    assert_eq!(resolve_scope(Some("p".to_string()), None), ("p".to_string(), "p".to_string()));
    assert_eq!(resolve_scope(Some("p".to_string()), Some("i".to_string())), ("p".to_string(), "i".to_string()));
}

#[test]
fn routes() {
    assert!(matches!(route_request("GET", "/api/tags"), Route::Tags));
    assert!(matches!(route_request("POST", "/api/show"), Route::Show));
    assert!(matches!(route_request("POST", "/echo"), Route::Echo));
    assert!(matches!(route_request("GET", "/nowhere"), Route::NotFound));
    match route_request("POST", "/partition/P/instance/I/v1/chat/completions") {
        Route::Chat { partition, instance } => assert_eq!((partition.as_str(), instance.as_str()), ("P", "I")),
        _ => panic!("expected chat"),
    }
    match route_request("POST", "/v1/chat/completions") {
        Route::Chat { partition, instance } => assert_eq!((partition.as_str(), instance.as_str()), ("default", "default")),
        _ => panic!("expected chat"),
    }
    match route_request("GET", "/partition/P/command/view/12") {
        Route::View { partition, instance, count } => {
            assert_eq!((partition.as_str(), instance.as_str(), count), ("P", "P", 12))
        }
        _ => panic!("expected view"),
    }
    match route_request("GET", "/partition/P/command/search/x") {
        Route::Search { count, .. } => assert_eq!(count, 5),
        _ => panic!("expected search"),
    }
}

#[test]
fn numbers_in_paths() {
    assert_eq!(parse_u32("42"), Some(42));
    assert_eq!(parse_u32("+7"), Some(7));
    assert_eq!(parse_u32("4294967295"), Some(u32::MAX));
    assert_eq!(parse_u32("4294967296"), None);
    assert_eq!(parse_u32(""), None);
    assert_eq!(parse_u32("+"), None);
    assert_eq!(parse_u32("1a"), None);
    assert_eq!(get_count_from_path("/command/view/9"), 9);
    assert_eq!(get_count_from_path("/command/view/"), 5);
}

#[test]
fn search_query_params() {
    assert_eq!(search_query("term=hello+world&semantic=true"), ("hello world".to_string(), true));
    assert_eq!(search_query("semantic=1&term=a%26b"), ("a&b".to_string(), true));
    assert_eq!(search_query("term=x&semantic=no"), ("x".to_string(), false));
    assert_eq!(search_query(""), (String::new(), false));
}

#[test]
fn model_table() {
    let e = env();
    let mini = ModelInfo::new("gpt-4o-mini".to_string(), &e);
    assert_eq!((mini.input_tokens, mini.output_tokens), (48_000, 4_096));
    assert_eq!(mini.base_url, "https://api.openai.com/v1/chat/completions");
    assert_eq!(mini.key, "o");
    let llama = ModelInfo::new("llama3.2".to_string(), &e);
    assert_eq!((llama.input_tokens, llama.output_tokens, llama.key.as_str()), (128_000, 2048, ""));
    assert_eq!(llama.base_url, "http://localhost:11434/v1/chat/completions");
    let mistral = ModelInfo::new("mistral-large-2402".to_string(), &e);
    assert_eq!(mistral.base_url, "https://mistral.example/v1/chat/completions");
    let gemini = ModelInfo::new("gemini-2.0-flash".to_string(), &e);
    assert_eq!(gemini.base_url, "https://generativelanguage.googleapis.com/v1beta/openai/chat/completions");
    assert_eq!(gemini.key, "");
    let other = ModelInfo::new("qwen".to_string(), &e);
    assert_eq!(other.name, "qwen");
    assert_eq!(other.base_url, "http://gpu:11434/v1/chat/completions");
    assert_eq!((other.input_tokens, other.output_tokens, other.key.as_str()), (128_000, 2048, "l"));
    match LanguageModel::from_str("qwen", &e) {
        LanguageModel::Ollama(i) => assert_eq!((i.key.as_str(), i.base_url.as_str()), ("l", "http://gpu:11434/v1/chat/completions")),
        _ => panic!("expected local"),
    }
    match LanguageModel::from_str("llama3.2", &e) {
        LanguageModel::Ollama(i) => assert_eq!((i.key.as_str(), i.base_url.as_str()), ("", "http://localhost:11434/v1/chat/completions")),
        _ => panic!("expected local"),
    }
    assert!(matches!(LanguageModel::from_str("gpt-4.1", &e), LanguageModel::OpenAi(_)));
}

#[test]
fn config_resolution() {
    let c = ReservoirConfig::default();
    assert_eq!(get_neo4j_uri(&c, None), "bolt://localhost:7687");
    assert_eq!(get_neo4j_uri(&c, Some("bolt://db:7687".to_string())), "bolt://db:7687");
    let empty = ReservoirConfig { neo4j_uri: None, neo4j_user: None, neo4j_password: None, reservoir_port: None };
    assert_eq!(get_neo4j_uri(&empty, None), "bolt://localhost:7687");
    assert_eq!(get_reservoir_port(&c, None), 3017);
    assert_eq!(get_reservoir_port(&c, Some(8080)), 8080);
    assert_eq!(serve_port(true, 3017), 11434);
    assert_eq!(serve_port(false, 3017), 3017);
}

#[test]
fn embedding_clients() {
    let remote = EmbeddingClient::default();
    assert_eq!(remote.get_index_name(), "embedding1536");
    assert_eq!(remote.get_node_name(), "Embedding1536");
    let local = EmbeddingClient::with_fastembed("bge-large-en-v15");
    assert_eq!(local.get_index_name(), "embedding1024");
    assert_eq!(local.check_embedding(1024), Ok(()));
    assert_eq!(local.check_embedding(0), Err(EmbeddingError::Empty));
    assert_eq!(local.check_embedding(1536), Err(EmbeddingError::LengthMismatch { expected: 1024, actual: 1536 }));
    assert_eq!(EmbeddingClient::new_openai("m".to_string()).length(), 1536);
}
