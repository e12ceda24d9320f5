//! A memory-bearing chat-completion proxy core: token budgeting, context
//! enrichment, retrieval ranking and the per-request decision pipeline.
pub mod message;
pub mod tokens;
pub mod budget;
pub mod model;
pub mod checks;
pub mod compress;
pub mod node;
pub mod enrich;
pub mod retrieval;
pub mod pipeline;
pub mod scope;
pub mod embedding;
pub mod config;
pub mod store;
pub mod commands;
pub mod route;
pub mod cli;
