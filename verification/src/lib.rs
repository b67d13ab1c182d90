//! Lifecycle supervisor for a desktop shell's backend sidecar process.
//!
//! The crate holds the decision logic of the supervisor: generation
//! allocation and restart semantics, the readiness-probing state machine
//! with its attempt budget, the event relay that filters stale events by
//! generation and turns the surviving ones into UI directives, and the
//! dispatch of tray-menu commands.  All process spawning, HTTP probing,
//! stream reading and window management is left to an unverified driver
//! that feeds plain values into these functions.

pub mod commands;
pub mod events;
pub mod messages;
pub mod prober;
pub mod relay;
pub mod supervisor;
