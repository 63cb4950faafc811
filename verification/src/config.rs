//! The configuration that is fixed when the service starts.

use vstd::prelude::*;

verus! {

/// The largest text, in bytes, that is accepted where nothing else is set.
pub const DEFAULT_MAX_TEXT_LENGTH: usize = 5000000;

/// The bits of the threshold that is used where nothing else is set: zero.
pub const DEFAULT_THRESHOLD: u32 = 0;

/// The length of the vector that stands for a failed embedding where
/// nothing else is set.
pub const DEFAULT_VECTOR_DIM: usize = 100;

/// The largest request, in megabytes, that the transport takes where
/// nothing else is set.
pub const DEFAULT_MAX_REQUEST_SIZE_MB: u32 = 500;

/// Limits and defaults of the service.  A value is built once and only read
/// afterwards.
#[derive(Clone, Copy, Debug, PartialEq, Eq)]
pub struct ServerConfig {
    /// The largest text, in bytes, that is handed to the model.
    pub max_text_length: usize,
    /// The threshold of a request that names none, as the bits of a
    /// single-precision number.
    pub default_threshold: u32,
    /// The length of the all-zero vector that stands for a failed embedding.
    pub default_vector_dim: usize,
    /// The transport's cap on one request; nothing in the batch logic reads it.
    pub max_request_size_mb: u32,
}

impl ServerConfig {
    /// The configuration of a service that was given no settings.
    pub open spec fn standard() -> ServerConfig {
        ServerConfig {
            max_text_length: DEFAULT_MAX_TEXT_LENGTH,
            default_threshold: DEFAULT_THRESHOLD,
            default_vector_dim: DEFAULT_VECTOR_DIM,
            max_request_size_mb: DEFAULT_MAX_REQUEST_SIZE_MB,
        }
    }
}

impl Default for ServerConfig {
    fn default() -> (config: ServerConfig)
        ensures
            config == ServerConfig::standard(),
    {
        ServerConfig {
            max_text_length: DEFAULT_MAX_TEXT_LENGTH,
            default_threshold: DEFAULT_THRESHOLD,
            default_vector_dim: DEFAULT_VECTOR_DIM,
            max_request_size_mb: DEFAULT_MAX_REQUEST_SIZE_MB,
        }
    }
}

} // verus!
