//! Transactional ingestion of login events into a versioned table.
//!
//! The library holds the decisions of the ingestion engine: the declared table
//! schema and the checks on a configuration, decoding raw payloads into typed
//! records, provisioning a table exactly once, committing a batch atomically
//! with bounded retries on conflict, and deciding when a checkpoint is due. The storage layer itself is driven by the caller, which
//! hands each outcome back to these functions.

pub mod checkpoint;
pub mod config;
pub mod decode;
pub mod provision;
pub mod schema;
pub mod writer;
