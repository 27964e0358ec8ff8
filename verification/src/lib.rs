//! A verified host-provisioning runtime for a confidential-computing enclave.
//!
//! The library models the host side of a sandboxed WASM execution: a
//! provisioning state machine that binds a program to a linear memory,
//! collects input data from mutually distrusting clients, dispatches the
//! five host calls the guest may make, and guards the single result.

pub mod digest;
pub mod error;
pub mod hps;
pub mod laws;
pub mod lifecycle;
pub mod memory;
pub mod random;
pub mod semantics;
pub mod status;
pub mod strutil;
pub mod wasm;
