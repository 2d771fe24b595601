//! Compatibility gate: decides whether this orchestrator may proceed at all
//! or must defer to the legacy implementation. Purely advisory and
//! side-effect-free; it runs before any lock is taken or marker is touched.

use vstd::prelude::*;

use crate::errors::FallbackReason;
use crate::request::GotoOpts;

verus! {

/// Snapshot of the repository configuration and working copy, as far as the
/// gate reads them.
pub struct CompatSnapshot {
    /// Whether the repository has opted in to this implementation.
    pub use_rust: bool,
    /// Whether the configured conflict-check mode is the unsupported `none`.
    pub update_check_none: bool,
    /// Number of working-copy parents; more than one means an in-progress
    /// merge commit.
    pub wc_parent_count: usize,
    /// Whether the repository's storage format is git, which cannot
    /// guarantee submodule safety here.
    pub git_format: bool,
}

/// Whether the orchestrator may run, or must defer.
#[derive(Clone, Copy, Debug, PartialEq, Eq, Structural)]
pub enum GateResult {
    /// This orchestrator may run.
    Proceed,
    /// Defer to the legacy implementation.
    Fallback(FallbackReason),
}

/// The first fallback condition that fires, in priority order, or `None`
/// when the orchestrator may proceed.
pub open spec fn gate_reason(c: CompatSnapshot, o: GotoOpts) -> Option<FallbackReason> {
    if !c.use_rust {
        Some(FallbackReason::UseRustDisabled)
    } else if c.update_check_none {
        Some(FallbackReason::UpdateCheckSetToNone)
    } else if c.wc_parent_count > 1 {
        Some(FallbackReason::MultipleParents)
    } else if c.git_format {
        Some(FallbackReason::GitFormat)
    } else if o.merge || o.date@.len() > 0 {
        Some(FallbackReason::UnsupportedFlags)
    } else if o.bookmark is Some {
        Some(FallbackReason::BookmarkUnsupported)
    } else {
        None
    }
}

/// Decide whether this orchestrator may proceed, or must defer and why.
pub fn check_compat(c: &CompatSnapshot, o: &GotoOpts) -> (r: GateResult)
    ensures
        r == (match gate_reason(*c, *o) {
            Some(reason) => GateResult::Fallback(reason),
            None => GateResult::Proceed,
        }),
{
    if !c.use_rust {
        GateResult::Fallback(FallbackReason::UseRustDisabled)
    } else if c.update_check_none {
        GateResult::Fallback(FallbackReason::UpdateCheckSetToNone)
    } else if c.wc_parent_count > 1 {
        GateResult::Fallback(FallbackReason::MultipleParents)
    } else if c.git_format {
        GateResult::Fallback(FallbackReason::GitFormat)
    } else if o.merge || !o.date.as_str().is_empty() {
        GateResult::Fallback(FallbackReason::UnsupportedFlags)
    } else if o.bookmark.is_some() {
        GateResult::Fallback(FallbackReason::BookmarkUnsupported)
    } else {
        GateResult::Proceed
    }
}

} // verus!
