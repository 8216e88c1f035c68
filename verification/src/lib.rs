//! A small persistent ledger for a game economy.
//!
//! The crate is split in two layers, mirroring the way the state is held on
//! the hosting platform:
//!
//! * [`storage`] is the state store: a keyed, typed record of the
//!   configuration singletons (owner, treasury tokens, reward system,
//!   initialization flag) and of the per-entity records (collectibles,
//!   cash tiers, player registrations, users).
//! * [`contract`] is the domain service: the operations that compose
//!   state-store reads and writes with authorization checks and the
//!   cross-entity invariants, and the proofs of the rules they obey.
//!
//! The platform around the contract (signature verification, token
//! transfers, event transport, the ledger clock) is a collaborator, not part
//! of this crate: operations that instruct it return a description of the
//! requested effect instead of performing it.

pub mod contract;
pub mod storage;
