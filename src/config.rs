//! Store and server settings: defaults, and how the config file and the
//! environment combine.
use vstd::prelude::*;

verus! {

pub const DEFAULT_NEO4J_URI: &'static str = "bolt://localhost:7687";

pub const DEFAULT_NEO4J_USER: &'static str = "neo4j";

pub const DEFAULT_NEO4J_PASSWORD: &'static str = "password";

pub const DEFAULT_RESERVOIR_PORT: u16 = 3017;

/// Port served in local-runtime mimic mode.
pub const OLLAMA_PORT: u16 = 11434;

/// The settings of the config file; a key that the file lacks is `None`.
pub struct ReservoirConfig {
    pub neo4j_uri: Option<String>,
    pub neo4j_user: Option<String>,
    pub neo4j_password: Option<String>,
    pub reservoir_port: Option<u16>,
}

pub fn default_neo4j_uri() -> (r: Option<String>)
    ensures
        r matches Some(s) && s@ == DEFAULT_NEO4J_URI@,
{
    Some(DEFAULT_NEO4J_URI.to_string())
}

pub fn default_neo4j_user() -> (r: Option<String>)
    ensures
        r matches Some(s) && s@ == DEFAULT_NEO4J_USER@,
{
    Some(DEFAULT_NEO4J_USER.to_string())
}

pub fn default_neo4j_password() -> (r: Option<String>)
    ensures
        r matches Some(s) && s@ == DEFAULT_NEO4J_PASSWORD@,
{
    Some(DEFAULT_NEO4J_PASSWORD.to_string())
}

pub fn default_reservoir_port() -> (r: Option<u16>)
    ensures
        r == Some(DEFAULT_RESERVOIR_PORT),
{
    Some(DEFAULT_RESERVOIR_PORT)
}

impl Default for ReservoirConfig {
    fn default() -> (r: Self)
        ensures
            r.neo4j_uri matches Some(s) && s@ == DEFAULT_NEO4J_URI@,
            r.neo4j_user matches Some(s) && s@ == DEFAULT_NEO4J_USER@,
            r.neo4j_password matches Some(s) && s@ == DEFAULT_NEO4J_PASSWORD@,
            r.reservoir_port == Some(DEFAULT_RESERVOIR_PORT),
    {
        ReservoirConfig {
            neo4j_uri: default_neo4j_uri(),
            neo4j_user: default_neo4j_user(),
            neo4j_password: default_neo4j_password(),
            reservoir_port: default_reservoir_port(),
        }
    }
}

/// A setting: the environment variable if set, else the file's value, else
/// the default.
pub open spec fn setting(env: Option<String>, file: Option<String>, default: Seq<char>) -> Seq<
    char,
> {
    match env {
        Some(e) => e@,
        None => match file {
            Some(f) => f@,
            None => default,
        },
    }
}

fn resolve(env: Option<String>, file: &Option<String>, default: &str) -> (r: String)
    ensures
        r@ == setting(env, *file, default@),
{
    match env {
        Some(e) => e,
        None => match file {
            Some(f) => f.clone(),
            None => default.to_string(),
        },
    }
}

/// The store URI; `env` is the value of `NEO4J_URI`.
pub fn get_neo4j_uri(config: &ReservoirConfig, env: Option<String>) -> (r: String)
    ensures
        r@ == setting(env, config.neo4j_uri, DEFAULT_NEO4J_URI@),
{
    resolve(env, &config.neo4j_uri, DEFAULT_NEO4J_URI)
}

/// The store user; `env` is the value of `NEO4J_USER`.
pub fn get_neo4j_user(config: &ReservoirConfig, env: Option<String>) -> (r: String)
    ensures
        r@ == setting(env, config.neo4j_user, DEFAULT_NEO4J_USER@),
{
    resolve(env, &config.neo4j_user, DEFAULT_NEO4J_USER)
}

/// The store password; `env` is the value of `NEO4J_PASSWORD`.
pub fn get_neo4j_password(config: &ReservoirConfig, env: Option<String>) -> (r: String)
    ensures
        r@ == setting(env, config.neo4j_password, DEFAULT_NEO4J_PASSWORD@),
{
    resolve(env, &config.neo4j_password, DEFAULT_NEO4J_PASSWORD)
}

/// The server port; `env` is `RESERVOIR_PORT` read as a port number, `None`
/// where it is unset or not a number.
pub fn get_reservoir_port(config: &ReservoirConfig, env: Option<u16>) -> (r: u16)
    ensures
        env is Some ==> r == env->Some_0,
        env is None && config.reservoir_port is Some ==> r == config.reservoir_port->Some_0,
        env is None && config.reservoir_port is None ==> r == DEFAULT_RESERVOIR_PORT,
{
    match env {
        Some(p) => p,
        None => match config.reservoir_port {
            Some(p) => p,
            None => DEFAULT_RESERVOIR_PORT,
        },
    }
}

/// The port to serve: the local runtime's port in mimic mode, else the
/// configured one.
pub fn serve_port(ollama: bool, configured: u16) -> (r: u16)
    ensures
        ollama ==> r == OLLAMA_PORT,
        !ollama ==> r == configured,
{
    if ollama {
        OLLAMA_PORT
    } else {
        configured
    }
}

} // verus!
