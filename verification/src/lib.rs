//! Core of a device-linking flow: a pairing-code generator loop, a
//! provisioning poller loop, the orchestrator that wires them to the UI,
//! and a one-shot connectivity probe.
//!
//! Every component is modelled as a state machine: a plain state struct,
//! executable step functions whose contracts pin down each transition, and
//! spec-level run functions over event sequences with the laws that the
//! design promises (no overlapping calls, no redemption attempt before a
//! code exists, exactly one stop after success, advisory cancellation).
//! The RPC transport and the timers live outside the library; they hand in
//! plain values (responses and errors) and carry out the returned effects.

pub mod errors;
pub mod generator;
pub mod machine_info;
pub mod orchestrator;
pub mod poller;
pub mod probe;
pub mod responses;
pub mod status;
