//! Startup decisions for a desktop application shell.
//!
//! The shell itself — building the host application, registering the
//! logging plugin, and blocking inside the framework's run loop — is
//! unverified plumbing that lives outside this crate. What this crate
//! holds are the two decisions that plumbing takes: which logging
//! verbosity to install for the current build mode, and how the outcome
//! of the run loop maps to a process exit.

pub mod termination;
pub mod verbosity;
