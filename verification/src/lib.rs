//! Authorization and execution core of a smart account: an owner-gated
//! identity that protects state-changing actions behind an explicit
//! authorization verdict, enforces replay protection through a monotonic
//! nonce, and manages delegated, time-boxed, permission-scoped session keys.
//!
//! The surrounding ledger (durable storage, identity resolution, and
//! cross-contract dispatch) is an external collaborator: the host performs
//! those effects and hands their outcomes to this core as plain values, and
//! the core decides, as a verified state machine, what each entry point
//! returns and how the account state changes.

pub mod account;
pub mod errors;
pub mod host;
pub mod laws;
pub mod session;
pub mod state;
