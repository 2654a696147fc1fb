//! A typed publish/subscribe and request/reply client for a last-value
//! cache host: the wire envelope, the cached value slot, the polling
//! engine of a subscription and the typestate client handle.
pub mod engine;
pub mod envelope;
pub mod error;
pub mod node;
pub mod slot;
