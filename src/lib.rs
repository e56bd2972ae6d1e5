//! Versioned, revocable Merkle-root commitments, one per owner identity.
//!
//! The commitment store applies the record's state transitions (create,
//! update with a version bump, revoke); the entry points decide, for the
//! direct and the relayer-delegated write paths, which identity a write acts
//! for. Account storage, address derivation, signature checks and the clock
//! belong to the host: their results come in as plain values.
pub mod key;
pub mod record;
pub mod gateway;
pub mod laws;
