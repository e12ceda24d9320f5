//! The known-models table: token limits, endpoint and key for each model.
use vstd::prelude::*;
use crate::message::is_text;

verus! {

pub const OPENAI_CHAT_URL: &'static str = "https://api.openai.com/v1/chat/completions";

pub const OLLAMA_CHAT_URL: &'static str = "http://localhost:11434/v1/chat/completions";

pub const MISTRAL_CHAT_URL: &'static str = "https://api.mistral.ai/v1/chat/completions";

pub const GEMINI_CHAT_URL: &'static str = "https://generativelanguage.googleapis.com/v1beta/openai/chat/completions";

pub const OLLAMA_HOST: &'static str = "http://localhost:11434";

pub const CHAT_COMPLETIONS_PATH: &'static str = "/v1/chat/completions";

/// The environment values the model table reads; `None` where a variable is unset.
pub struct ProviderEnv {
    /// `RSV_OPENAI_BASE_URL`
    pub openai_base_url: Option<String>,
    /// `RSV_OLLAMA_BASE_URL`
    pub ollama_base_url: Option<String>,
    /// `RSV_MISTRAL_BASE_URL`
    pub mistral_base_url: Option<String>,
    /// `OLLAMA_BASE_URL`: host of the fallback endpoint
    pub ollama_host: Option<String>,
    /// `OPENAI_API_KEY`
    pub openai_key: Option<String>,
    /// `MISTRAL_API_KEY`
    pub mistral_key: Option<String>,
    /// `GEMINI_API_KEY`
    pub gemini_key: Option<String>,
    /// `OLLAMA_API_KEY`
    pub ollama_key: Option<String>,
}

/// The value of a variable, or `default` where it is unset.
pub open spec fn env_or(v: Option<String>, default: Seq<char>) -> Seq<char> {
    match v {
        Some(s) => s@,
        None => default,
    }
}

fn value_or(v: &Option<String>, default: &str) -> (r: String)
    ensures
        r@ == env_or(*v, default@),
{
    match v {
        Some(s) => s.clone(),
        None => default.to_string(),
    }
}

/// Endpoint profile of a chat model.
pub struct ModelInfo {
    /// The maximum number of input tokens for the model
    pub input_tokens: usize,
    pub output_tokens: usize,
    /// Name of the model
    pub name: String,
    pub key: String,
    /// Base URL for the model API
    pub base_url: String,
}

pub open spec fn is_openai_model(name: Seq<char>) -> bool {
    name == "gpt-4.1"@ || name == "gpt-4o"@ || name == "gpt-4o-mini"@
}

pub open spec fn is_known_model(name: Seq<char>) -> bool {
    is_openai_model(name) || name == "llama3.2"@ || name == "mistral-large-2402"@ || name
        == "gemini-2.0-flash"@
}

pub open spec fn input_limit_of(name: Seq<char>) -> usize {
    if name == "gpt-4o-mini"@ {
        48_000
    } else {
        128_000
    }
}

pub open spec fn output_limit_of(name: Seq<char>) -> usize {
    if is_openai_model(name) {
        4_096
    } else {
        2_048
    }
}

pub open spec fn base_url_of(name: Seq<char>, env: ProviderEnv) -> Seq<char> {
    if is_openai_model(name) {
        env_or(env.openai_base_url, OPENAI_CHAT_URL@)
    } else if name == "llama3.2"@ {
        env_or(env.ollama_base_url, OLLAMA_CHAT_URL@)
    } else if name == "mistral-large-2402"@ {
        env_or(env.mistral_base_url, MISTRAL_CHAT_URL@)
    } else if name == "gemini-2.0-flash"@ {
        GEMINI_CHAT_URL@
    } else {
        env_or(env.ollama_host, OLLAMA_HOST@) + CHAT_COMPLETIONS_PATH@
    }
}

pub open spec fn key_of(name: Seq<char>, env: ProviderEnv) -> Seq<char> {
    if is_openai_model(name) {
        env_or(env.openai_key, Seq::empty())
    } else if name == "llama3.2"@ {
        Seq::empty()
    } else if name == "mistral-large-2402"@ {
        env_or(env.mistral_key, Seq::empty())
    } else if name == "gemini-2.0-flash"@ {
        env_or(env.gemini_key, Seq::empty())
    } else {
        env_or(env.ollama_key, Seq::empty())
    }
}

/// The profile that the table gives a model name.
pub open spec fn profile_of(info: ModelInfo, name: Seq<char>, env: ProviderEnv) -> bool {
    &&& info.name@ == name
    &&& info.input_tokens == input_limit_of(name)
    &&& info.output_tokens == output_limit_of(name)
    &&& info.base_url@ == base_url_of(name, env)
    &&& info.key@ == key_of(name, env)
}

/// The model names of the table, letter by letter.
pub proof fn lemma_model_names()
    ensures
        "gpt-4.1"@ == seq!['g', 'p', 't', '-', '4', '.', '1'],
        "gpt-4o"@ == seq!['g', 'p', 't', '-', '4', 'o'],
        "gpt-4o-mini"@ == seq!['g', 'p', 't', '-', '4', 'o', '-', 'm', 'i', 'n', 'i'],
        "llama3.2"@ == seq!['l', 'l', 'a', 'm', 'a', '3', '.', '2'],
        "mistral-large-2402"@ == seq!['m', 'i', 's', 't', 'r', 'a', 'l', '-', 'l', 'a', 'r', 'g', 'e', '-', '2', '4', '0', '2'],
        "gemini-2.0-flash"@ == seq!['g', 'e', 'm', 'i', 'n', 'i', '-', '2', '.', '0', '-', 'f', 'l', 'a', 's', 'h'],
        ""@ == Seq::<char>::empty(),
        "gpt-4o"@ != "gpt-4o-mini"@,
{
    reveal_strlit("gpt-4.1");
    reveal_strlit("gpt-4o");
    reveal_strlit("gpt-4o-mini");
    reveal_strlit("llama3.2");
    reveal_strlit("mistral-large-2402");
    reveal_strlit("gemini-2.0-flash");
    reveal_strlit("");
    assert("gpt-4o"@.len() != "gpt-4o-mini"@.len());
}

impl ModelInfo {
    /// Resolves a model name through the known-models table; unknown names
    /// get the local-endpoint profile.
    pub fn new(name: String, env: &ProviderEnv) -> (r: ModelInfo)
        ensures
            profile_of(r, name@, *env),
    {
        proof {
            lemma_model_names();
        }
        if is_text(&name, "gpt-4.1") {
            Self::new_gpt_4_1(env)
        } else if is_text(&name, "gpt-4o") {
            Self::new_gpt_4o(env)
        } else if is_text(&name, "gpt-4o-mini") {
            Self::new_gpt_4o_mini(env)
        } else if is_text(&name, "llama3.2") {
            Self::new_llama3_2(env)
        } else if is_text(&name, "mistral-large-2402") {
            Self::new_mistral_large_2402(env)
        } else if is_text(&name, "gemini-2.0-flash") {
            Self::new_gemini_2_0_flash(env)
        } else {
            proof {
                assert(!is_known_model(name@));
            }
            Self::default(name, env)
        }
    }

    pub fn new_gpt_4_1(env: &ProviderEnv) -> (r: ModelInfo)
        ensures
            profile_of(r, "gpt-4.1"@, *env),
    {
        proof {
            lemma_model_names();
        }
        ModelInfo {
            input_tokens: 128_000,
            output_tokens: 4_096,
            name: "gpt-4.1".to_string(),
            key: value_or(&env.openai_key, ""),
            base_url: value_or(&env.openai_base_url, OPENAI_CHAT_URL),
        }
    }

    pub fn new_gpt_4o(env: &ProviderEnv) -> (r: ModelInfo)
        ensures
            profile_of(r, "gpt-4o"@, *env),
    {
        proof {
            lemma_model_names();
        }
        ModelInfo {
            input_tokens: 128_000,
            output_tokens: 4_096,
            name: "gpt-4o".to_string(),
            key: value_or(&env.openai_key, ""),
            base_url: value_or(&env.openai_base_url, OPENAI_CHAT_URL),
        }
    }

    fn new_gpt_4o_mini(env: &ProviderEnv) -> (r: ModelInfo)
        ensures
            profile_of(r, "gpt-4o-mini"@, *env),
    {
        proof {
            lemma_model_names();
        }
        ModelInfo {
            input_tokens: 48_000,
            output_tokens: 4_096,
            name: "gpt-4o-mini".to_string(),
            key: value_or(&env.openai_key, ""),
            base_url: value_or(&env.openai_base_url, OPENAI_CHAT_URL),
        }
    }

    fn new_llama3_2(env: &ProviderEnv) -> (r: ModelInfo)
        ensures
            profile_of(r, "llama3.2"@, *env),
    {
        proof {
            lemma_model_names();
        }
        ModelInfo {
            input_tokens: 128_000,
            output_tokens: 2048,
            name: "llama3.2".to_string(),
            key: "".to_string(),
            base_url: value_or(&env.ollama_base_url, OLLAMA_CHAT_URL),
        }
    }

    fn new_mistral_large_2402(env: &ProviderEnv) -> (r: ModelInfo)
        ensures
            profile_of(r, "mistral-large-2402"@, *env),
    {
        proof {
            lemma_model_names();
        }
        ModelInfo {
            input_tokens: 128_000,
            output_tokens: 2048,
            name: "mistral-large-2402".to_string(),
            key: value_or(&env.mistral_key, ""),
            base_url: value_or(&env.mistral_base_url, MISTRAL_CHAT_URL),
        }
    }

    fn new_gemini_2_0_flash(env: &ProviderEnv) -> (r: ModelInfo)
        ensures
            profile_of(r, "gemini-2.0-flash"@, *env),
    {
        proof {
            lemma_model_names();
        }
        ModelInfo {
            input_tokens: 128_000,
            output_tokens: 2048,
            name: "gemini-2.0-flash".to_string(),
            key: value_or(&env.gemini_key, ""),
            base_url: GEMINI_CHAT_URL.to_string(),
        }
    }

    fn default(name: String, env: &ProviderEnv) -> (r: ModelInfo)
        requires
            !is_known_model(name@),
        ensures
            profile_of(r, name@, *env),
    {
        proof {
            lemma_model_names();
        }
        let host = value_or(&env.ollama_host, OLLAMA_HOST);
        let base_url = host.concat(CHAT_COMPLETIONS_PATH);
        ModelInfo {
            input_tokens: 128_000,
            output_tokens: 2048,
            name,
            key: value_or(&env.ollama_key, ""),
            base_url,
        }
    }
}

/// A chat model with the provider that serves it.
pub enum LanguageModel {
    OpenAi(ModelInfo),
    Ollama(ModelInfo),
    Mistral(ModelInfo),
    Gemini(ModelInfo),
}

impl LanguageModel {
    pub open spec fn info(&self) -> ModelInfo {
        match self {
            LanguageModel::OpenAi(i) => *i,
            LanguageModel::Ollama(i) => *i,
            LanguageModel::Mistral(i) => *i,
            LanguageModel::Gemini(i) => *i,
        }
    }

    /// Resolves a model name through the known-models table and tags it with
    /// the provider that serves it; unknown names go to the local runtime.
    pub fn from_str(model_name: &str, env: &ProviderEnv) -> (r: LanguageModel)
        ensures
            profile_of(r.info(), model_name@, *env),
            is_openai_model(model_name@) ==> r is OpenAi,
            model_name@ == "mistral-large-2402"@ ==> r is Mistral,
            model_name@ == "gemini-2.0-flash"@ ==> r is Gemini,
            model_name@ == "llama3.2"@ || !is_known_model(model_name@) ==> r is Ollama,
    {
        proof {
            lemma_model_names();
        }
        let name = model_name.to_string();
        if is_text(&name, "gpt-4.1") || is_text(&name, "gpt-4o") || is_text(&name, "gpt-4o-mini") {
            LanguageModel::OpenAi(ModelInfo::new(name, env))
        } else if is_text(&name, "mistral-large-2402") {
            LanguageModel::Mistral(ModelInfo::new(name, env))
        } else if is_text(&name, "gemini-2.0-flash") {
            LanguageModel::Gemini(ModelInfo::new(name, env))
        } else {
            LanguageModel::Ollama(ModelInfo::new(name, env))
        }
    }
}

} // verus!
