//! A minimal declarative control plane: a versioned object store with
//! optimistic concurrency, a client that addresses it by version and kind,
//! and the reconciliation loop that controllers run against it.

pub mod error;
pub mod ids;
pub mod meta;
pub mod store;
pub mod fabric;
pub mod controller;
pub mod client;
