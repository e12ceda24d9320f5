//! The command-line surface as plain values.
use vstd::prelude::*;

verus! {

/// The parsed command line.
pub struct Args {
    pub subcmd: Option<SubCommands>,
}

/// The subcommands.
pub enum SubCommands {
    /// Set or get configuration values.
    Config(ConfigSubCommand),
    /// Serve the proxy.
    Start(StartSubCommand),
    /// Print every message node as JSON.
    Export,
    /// Load message nodes from a JSON file.
    Import(ImportSubCommand),
    /// Show the latest turns of a scope.
    View(ViewSubCommand),
    /// Search turns by keyword or by meaning.
    Search(SearchSubCommand),
    /// Save standard input as one turn.
    Ingest(IngestSubCommand),
    /// Re-embed the stored turns.
    Replay(ReplaySubCommand),
}

pub struct StartSubCommand {
    /// Serve on the local runtime's port.
    pub ollama: bool,
}

pub struct ConfigSubCommand {
    /// `key=value` to set.
    pub set: Option<String>,
    /// Key to print.
    pub get: Option<String>,
}

pub struct ImportSubCommand {
    /// Path of the JSON file.
    pub file: String,
}

pub struct ViewSubCommand {
    pub count: usize,
    pub partition: Option<String>,
    pub instance: Option<String>,
}

pub struct IngestSubCommand {
    pub partition: Option<String>,
    pub instance: Option<String>,
    /// Role of the turn; `user` when absent.
    pub role: Option<String>,
}

pub struct ReplaySubCommand {
    /// Embedding model to replay with.
    pub model: Option<String>,
}

pub struct SearchSubCommand {
    pub term: String,
    /// Search by meaning rather than by keyword.
    pub semantic: bool,
    pub partition: Option<String>,
    pub instance: Option<String>,
    /// Expand results as retrieval does for the proxy.
    pub link: bool,
    /// Deduplicate the similar results.
    pub deduplicate: bool,
}

/// The role an ingested turn gets: the one given, else `user`.
pub fn ingest_role(cmd: &IngestSubCommand) -> (r: String)
    ensures
        cmd.role matches Some(role) ==> r@ == role@,
        cmd.role is None ==> r@ == "user"@,
{
    match &cmd.role {
        Some(role) => role.clone(),
        None => "user".to_string(),
    }
}

} // verus!
