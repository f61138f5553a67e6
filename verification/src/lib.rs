//! A narrow, versioned shared API over JSON documents stored in a host
//! key-value store.
//!
//! The host owns the keyspace; this crate owns the rules of the shared
//! surface: opening a key as a document handle, resolving a path expression
//! to a sub-value, introspecting a value's type, releasing handles, exporting
//! the capability table, and forwarding keyspace notifications.
//!
//! Foreign callers hold only opaque integer handles. A slot table maps each
//! handle to its backing state and rejects stale handles, so a closed handle
//! can never reach a document again.

pub mod capability;
pub mod handles;
pub mod host;
pub mod path;
pub mod value;
