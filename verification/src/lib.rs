//! Environment-readiness prober: checks that a machine satisfies the
//! prerequisites for deploying kernel-level packet-filtering programs
//! (minimum kernel version, required tooling packages, required kernel
//! build flags, presence of a target network interface).
//!
//! This crate holds the verified diagnostic logic: every stage is a pure
//! function from command output text to a pass/fail outcome.  Running the
//! commands, prompting the user and holding the remote shell session are
//! the callers' business; they hand the raw text in and render the
//! structured outcomes back out.

pub mod errors;
pub mod flags;
pub mod iface;
pub mod orchestrator;
pub mod packages;
pub mod prompt;
pub mod report;
pub mod session;
pub mod text;
pub mod version;
