//! A memory-safe core for a foreign-facing blocking HTTP client.
//!
//! Every long-lived object that crosses the foreign boundary — client
//! builders, clients, request builders, requests, responses, header maps,
//! owned buffers, error records — is handled through a nullable owning slot
//! (`Option<T>`), mirroring the opaque-handle discipline of the boundary:
//! a consuming call takes the slot by value and hands back a fresh one,
//! a borrowing call leaves the slot as valid as it found it, and a destroy
//! call on an empty slot is a no-op.
//!
//! Failures are never raised: each call classifies its failure into a closed
//! taxonomy, writes a record into a single-slot error channel, and signals
//! the caller with a null or sentinel result.

pub mod buffer;
pub mod builder;
pub mod channel;
pub mod client;
pub mod classify;
pub mod engine;
pub mod headers;
pub mod kinds;
pub mod proxy;
pub mod request;
pub mod response;
pub mod text;
