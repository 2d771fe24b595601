//! Orchestration logic for the `goto` command: moving a working copy from one
//! commit to another while safely handling interrupted or conflicting prior
//! operations.
//!
//! The library reconciles user intent (flags), on-disk interrupted-operation
//! markers, and a process-wide operation guard into a single validated
//! checkout request. File I/O, commit resolution and the checkout engine
//! itself are external collaborators: callers read the on-disk markers into a
//! [`state::StateDir`], run the verified decision logic, and replay the
//! resulting state transitions back to disk.

pub mod command;
pub mod dispatch;
pub mod errors;
pub mod gate;
pub mod orchestrate;
pub mod request;
pub mod state;
pub mod use_case;
