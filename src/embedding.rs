//! Embedding providers and the vector index each one writes to.
use vstd::prelude::*;

verus! {

/// Vector length of the remote embedding model.
pub const REMOTE_LENGTH: i32 = 1536;

/// Vector length of the local embedding model.
pub const LOCAL_LENGTH: i32 = 1024;

/// An embedding provider: the remote API or the local model, each with its
/// model name and vector length.
pub enum EmbeddingClient {
    OpenAI { model: String, length: i32 },
    FastEmbed { model: String, length: i32 },
}

impl Clone for EmbeddingClient {
    fn clone(&self) -> (r: Self)
        ensures
            r == *self,
    {
        match self {
            EmbeddingClient::OpenAI { model, length } => EmbeddingClient::OpenAI {
                model: model.clone(),
                length: *length,
            },
            EmbeddingClient::FastEmbed { model, length } => EmbeddingClient::FastEmbed {
                model: model.clone(),
                length: *length,
            },
        }
    }
}

/// Why an embedding cannot be used.
#[derive(Debug, PartialEq, Eq, Structural)]
pub enum EmbeddingError {
    /// The provider returned no vector.
    Empty,
    /// The vector does not have the provider's length, so it does not fit
    /// the provider's index.
    LengthMismatch { expected: i32, actual: usize },
}

impl EmbeddingClient {
    pub open spec fn length_of(&self) -> i32 {
        match self {
            EmbeddingClient::OpenAI { length, .. } => *length,
            EmbeddingClient::FastEmbed { length, .. } => *length,
        }
    }

    pub fn new_openai(model: String) -> (r: EmbeddingClient)
        ensures
            r == (EmbeddingClient::OpenAI { model, length: REMOTE_LENGTH }),
    {
        EmbeddingClient::OpenAI { model, length: REMOTE_LENGTH }
    }

    pub fn with_fastembed(model: &str) -> (r: EmbeddingClient)
        ensures
            r matches EmbeddingClient::FastEmbed { model: m, length } && m@ == model@ && length
                == LOCAL_LENGTH,
    {
        EmbeddingClient::FastEmbed { model: model.to_string(), length: LOCAL_LENGTH }
    }

    /// The remote provider with `text-embedding-ada-002`.
    pub fn default() -> (r: EmbeddingClient)
        ensures
            r matches EmbeddingClient::OpenAI { model, length } && model@
                == "text-embedding-ada-002"@ && length == REMOTE_LENGTH,
    {
        EmbeddingClient::OpenAI {
            model: "text-embedding-ada-002".to_string(),
            length: REMOTE_LENGTH,
        }
    }

    /// Label of the embedding nodes this provider writes.
    pub fn get_node_name(&self) -> (r: String)
        ensures
            self is OpenAI ==> r@ == "Embedding1536"@,
            self is FastEmbed ==> r@ == "Embedding1024"@,
    {
        match self {
            EmbeddingClient::OpenAI { .. } => "Embedding1536".to_string(),
            EmbeddingClient::FastEmbed { .. } => "Embedding1024".to_string(),
        }
    }

    /// Name of the vector index this provider's vectors go to.
    pub fn get_index_name(&self) -> (r: String)
        ensures
            self is OpenAI ==> r@ == "embedding1536"@,
            self is FastEmbed ==> r@ == "embedding1024"@,
    {
        match self {
            EmbeddingClient::OpenAI { .. } => "embedding1536".to_string(),
            EmbeddingClient::FastEmbed { .. } => "embedding1024".to_string(),
        }
    }

    /// The vector length this provider produces.
    pub fn length(&self) -> (r: i32)
        ensures
            r == self.length_of(),
    {
        match self {
            EmbeddingClient::OpenAI { length, .. } => *length,
            EmbeddingClient::FastEmbed { length, .. } => *length,
        }
    }

    /// Accepts a vector of `len` components for this provider's index: an
    /// empty vector is no embedding, and one of another length belongs to
    /// another index.
    pub fn check_embedding(&self, len: usize) -> (r: Result<(), EmbeddingError>)
        ensures
            len == 0 ==> r == Err::<(), EmbeddingError>(EmbeddingError::Empty),
            len > 0 && len != self.length_of() ==> r == Err::<(), EmbeddingError>(
                EmbeddingError::LengthMismatch { expected: self.length_of(), actual: len },
            ),
            len > 0 && len == self.length_of() ==> r is Ok,
    {
        let expected = self.length();
        if len == 0 {
            Err(EmbeddingError::Empty)
        } else if expected < 0 || len != expected as usize {
            Err(EmbeddingError::LengthMismatch { expected, actual: len })
        } else {
            Ok(())
        }
    }
}

} // verus!
