//! Error and fallback taxonomy of the update orchestrator.
//!
//! A [`FallbackReason`] is not an error: it tells the caller to defer to a
//! legacy implementation. A [`GotoError`] is a user-facing failure of this
//! invocation; every variant is recoverable by re-invoking with different
//! flags or after resolving conflicts.

use vstd::prelude::*;

verus! {

/// Identity of a repository-wide operation recorded by the operation guard.
#[derive(Clone, Copy, Debug, PartialEq, Eq, Structural)]
pub enum Operation {
    /// A destructive update that discards uncommitted changes.
    GotoClean,
    /// Any other guarded operation.
    Other,
}

/// A flag-combination violation detected before or during destination
/// selection.
#[derive(Clone, Copy, Debug, PartialEq, Eq, Structural)]
pub enum ArgError {
    /// `--clean` and `--continue` were both set.
    CleanWithContinue,
    /// A concrete destination and `--continue` were both supplied.
    DestinationWithContinue,
    /// More than one of `--check`, `--clean`, `--merge` was set.
    MultipleConflictFlags,
    /// More than one destination reached destination resolution.
    TooManyDestinations,
    /// No destination reached destination resolution.
    NoDestination,
}

/// A user-facing failure of one update invocation.
#[derive(Clone, Copy, Debug, PartialEq, Eq, Structural)]
pub enum GotoError {
    /// The supplied flags or destinations are mutually inconsistent.
    InvalidArguments(ArgError),
    /// A merge is in progress with outstanding conflicts and `--clean` was
    /// not given.
    UnresolvedConflicts,
    /// `--continue` was requested but no interrupted update was recorded.
    NotInterrupted,
    /// The operation guard is already owned; carries the owner's identity.
    OperationInProgress(Operation),
}

/// Why the orchestrator defers to the legacy implementation instead of
/// proceeding. Deferral is an expected outcome, not a failure.
#[derive(Clone, Copy, Debug, PartialEq, Eq, Structural)]
pub enum FallbackReason {
    /// The repository has not opted in to this implementation.
    UseRustDisabled,
    /// The configured conflict-check mode is unsupported here.
    UpdateCheckSetToNone,
    /// The working copy has more than one parent (an in-progress merge
    /// commit).
    MultipleParents,
    /// The storage format cannot guarantee submodule safety.
    GitFormat,
    /// `--merge` or `--date` was supplied; neither is supported here.
    UnsupportedFlags,
    /// `--bookmark` was supplied; bookmark creation is unsupported here.
    BookmarkUnsupported,
    /// The destination text could not be resolved to a commit; legacy
    /// resolution syntax may still accept it.
    UnresolvableDestination,
}

impl FallbackReason {
    /// Human-readable diagnostic for the deferral.
    pub fn message(&self) -> (r: &'static str)
        ensures
            *self is UseRustDisabled ==> r@ == "checkout.use-rust is False"@,
            *self is UpdateCheckSetToNone ==> r@ == "commands.update.check=none"@,
            *self is MultipleParents ==> r@ == "multiple working copy parents"@,
            *self is GitFormat ==> r@ == "git format unsupported (submodules)"@,
            *self is UnsupportedFlags ==> r@ == "one or more unsupported options in Rust checkout"@,
            *self is BookmarkUnsupported ==> r@ == "--bookmark not supported"@,
            *self is UnresolvableDestination ==> r@ == "unable to resolve checkout destination"@,
    {
        match self {
            FallbackReason::UseRustDisabled => "checkout.use-rust is False",
            FallbackReason::UpdateCheckSetToNone => "commands.update.check=none",
            FallbackReason::MultipleParents => "multiple working copy parents",
            FallbackReason::GitFormat => "git format unsupported (submodules)",
            FallbackReason::UnsupportedFlags => "one or more unsupported options in Rust checkout",
            FallbackReason::BookmarkUnsupported => "--bookmark not supported",
            FallbackReason::UnresolvableDestination => "unable to resolve checkout destination",
        }
    }
}

} // verus!
