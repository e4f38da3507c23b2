//! Contract addressing and message construction for a cell-tree-based
//! sharded ledger.
//!
//! The crate derives a contract's identity from its initial state, builds
//! the four message variants (external/internal call, external/internal
//! deploy), serializes them to wire bytes with a content-addressed
//! identifier, supports a two-phase signing protocol, and decides shard
//! ownership of an address by tagged-prefix matching.
//!
//! Cell trees are carried as their serialized wire bytes; the binary
//! cell-tree codec itself is an external collaborator reached through a
//! small set of trusted wrappers.

pub mod address;
pub mod codec;
pub mod contract;
pub mod errors;
pub mod image;
pub mod message;
pub mod shard;
