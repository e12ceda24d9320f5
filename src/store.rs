//! Connection settings of the graph store's repositories.
use vstd::prelude::*;
use crate::config::{ReservoirConfig, get_neo4j_password, get_neo4j_uri, get_neo4j_user, setting, DEFAULT_NEO4J_URI, DEFAULT_NEO4J_USER, DEFAULT_NEO4J_PASSWORD};

verus! {

/// Where the store's environment overrides come from: `NEO4J_URI`,
/// `NEO4J_USER`, `NEO4J_PASSWORD`.
pub struct StoreEnv {
    pub uri: Option<String>,
    pub user: Option<String>,
    pub password: Option<String>,
}

/// The settings resolve from the environment, the file and the defaults.
pub open spec fn resolved(uri: String, user: String, pass: String, config: ReservoirConfig, env: StoreEnv) -> bool {
    &&& uri@ == setting(env.uri, config.neo4j_uri, DEFAULT_NEO4J_URI@)
    &&& user@ == setting(env.user, config.neo4j_user, DEFAULT_NEO4J_USER@)
    &&& pass@ == setting(env.password, config.neo4j_password, DEFAULT_NEO4J_PASSWORD@)
}

/// The repository of embedding nodes in the graph store.
pub struct Neo4jEmbeddingRepository {
    pub uri: String,
    pub user: String,
    pub pass: String,
}

impl Clone for Neo4jEmbeddingRepository {
    fn clone(&self) -> (r: Self)
        ensures
            r == *self,
    {
        Neo4jEmbeddingRepository {
            uri: self.uri.clone(),
            user: self.user.clone(),
            pass: self.pass.clone(),
        }
    }
}

impl Neo4jEmbeddingRepository {
    pub fn new(uri: String, user: String, pass: String) -> (r: Neo4jEmbeddingRepository)
        ensures
            r.uri == uri,
            r.user == user,
            r.pass == pass,
    {
        Neo4jEmbeddingRepository { uri, user, pass }
    }

    /// The repository at the configured store.
    pub fn default(config: &ReservoirConfig, env: StoreEnv) -> (r: Neo4jEmbeddingRepository)
        ensures
            resolved(r.uri, r.user, r.pass, *config, env),
    {
        Neo4jEmbeddingRepository {
            uri: get_neo4j_uri(config, env.uri),
            user: get_neo4j_user(config, env.user),
            pass: get_neo4j_password(config, env.password),
        }
    }
}

/// An embedding repository, whichever store backs it.
pub enum AnyEmbeddingRepository {
    Neo4j(Neo4jEmbeddingRepository),
}

impl AnyEmbeddingRepository {
    pub fn new_neo4j(uri: String, user: String, pass: String) -> (r: AnyEmbeddingRepository)
        ensures
            r matches AnyEmbeddingRepository::Neo4j(repo) && repo.uri == uri && repo.user == user
                && repo.pass == pass,
    {
        AnyEmbeddingRepository::Neo4j(Neo4jEmbeddingRepository::new(uri, user, pass))
    }

    pub fn clone_from_neo4j(repo: &Neo4jEmbeddingRepository) -> (r: AnyEmbeddingRepository)
        ensures
            r == AnyEmbeddingRepository::Neo4j(*repo),
    {
        AnyEmbeddingRepository::Neo4j(repo.clone())
    }
}

/// The repository of message nodes in the graph store.
pub struct Neo4jMessageRepository {
    pub uri: String,
    pub user: String,
    pub pass: String,
}

impl Neo4jMessageRepository {
    /// The repository at the configured store.
    pub fn default(config: &ReservoirConfig, env: StoreEnv) -> (r: Neo4jMessageRepository)
        ensures
            resolved(r.uri, r.user, r.pass, *config, env),
    {
        Neo4jMessageRepository {
            uri: get_neo4j_uri(config, env.uri),
            user: get_neo4j_user(config, env.user),
            pass: get_neo4j_password(config, env.password),
        }
    }
}

/// A message repository, whichever store backs it.
pub enum AnyMessageRepository {
    Neo4j(Neo4jMessageRepository),
}

impl AnyMessageRepository {
    pub fn new_neo4j(config: &ReservoirConfig, env: StoreEnv) -> (r: AnyMessageRepository)
        ensures
            r matches AnyMessageRepository::Neo4j(repo) && resolved(
                repo.uri,
                repo.user,
                repo.pass,
                *config,
                env,
            ),
    {
        AnyMessageRepository::Neo4j(Neo4jMessageRepository::default(config, env))
    }
}

} // verus!
