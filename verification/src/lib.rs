//! Core logic for a peer-to-peer rollback-netcode session: an input codec,
//! a peer discovery gate, a one-shot session bootstrap state machine, and a
//! deterministic per-frame simulation step.

pub mod bootstrap;
pub mod codec;
pub mod discovery;
pub mod step;
