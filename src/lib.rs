//! Client-side protocol logic of a container image registry: content
//! digests, the chunked blob upload protocol, manifest storage results,
//! paginated listings and admission control, over a remote storage backend.
pub mod admission;
pub mod client;
pub mod digest;
pub mod error;
pub mod listing;
pub mod probe;
pub mod text;
pub mod upload;
pub mod users;
