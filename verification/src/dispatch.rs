//! Checkout dispatch: the validated request handed to the external checkout
//! engine, and the decision taken on the outcome of destination resolution.
//!
//! Destination resolution is delegated to the repository collaborator; the
//! caller performs that call and hands its outcome to
//! [`decide_after_resolve`], which is then verified for every outcome.

use vstd::prelude::*;

use crate::errors::FallbackReason;
use crate::request::ConflictPolicy;

verus! {

/// A concrete target commit, as the repository collaborator identifies it.
pub struct CommitId {
    /// The commit's identifier bytes.
    pub bytes: Vec<u8>,
}

impl View for CommitId {
    type V = Seq<u8>;

    open spec fn view(&self) -> Seq<u8> {
        self.bytes@
    }
}

/// Failure of the external destination resolution. Its details stay with
/// the collaborator; any resolution failure defers to the legacy
/// implementation rather than failing the user.
pub struct ResolveError {}

/// What the engine reports about the checkout.
#[derive(Clone, Copy, Debug, PartialEq, Eq, Structural)]
pub enum ReportMode {
    /// Report only on failure.
    Quiet,
    /// Always surface warnings.
    Always,
}

/// What happens to the active bookmark after the update.
pub enum BookmarkAction {
    /// Make `name` the active bookmark if it names a valid bookmark.
    SetActiveIfValid(String),
    /// Deactivate the active bookmark.
    UnsetActive,
}

/// Mathematical model of a [`BookmarkAction`].
#[verifier::ext_equal]
pub ghost enum BookmarkActionModel {
    /// Activate the named bookmark if valid.
    SetActiveIfValid(Seq<char>),
    /// Deactivate the active bookmark.
    UnsetActive,
}

impl View for BookmarkAction {
    type V = BookmarkActionModel;

    open spec fn view(&self) -> BookmarkActionModel {
        match self {
            BookmarkAction::SetActiveIfValid(name) => BookmarkActionModel::SetActiveIfValid(name@),
            BookmarkAction::UnsetActive => BookmarkActionModel::UnsetActive,
        }
    }
}

/// A planned checkout whose destination text still awaits resolution by the
/// repository collaborator.
pub struct PendingCheckout {
    /// The single destination text to resolve.
    pub destination: String,
    /// The conflict policy the flags selected.
    pub conflict_policy: ConflictPolicy,
    /// What happens to the active bookmark.
    pub bookmark_action: BookmarkAction,
}

/// The assembled request for the external checkout engine.
pub struct CheckoutRequest {
    /// The target commit.
    pub target: CommitId,
    /// What happens to the active bookmark.
    pub bookmark_action: BookmarkAction,
    /// The conflict policy.
    pub conflict_policy: ConflictPolicy,
    /// How the engine reports; always surfaces warnings.
    pub report_mode: ReportMode,
    /// Whether content-addressed-storage acceleration is enabled.
    pub accelerate: bool,
}

/// The decision taken once destination resolution has run.
pub enum DispatchStep {
    /// Resolution failed: defer to the legacy implementation.
    Fallback(FallbackReason),
    /// Invoke the external checkout engine with this request, under the
    /// repository-wide exclusive lock; its exit code passes through
    /// unchanged.
    Dispatch(CheckoutRequest),
}

/// Decide on the outcome of destination resolution: a failure defers to the
/// legacy implementation, a resolved commit becomes the checkout request.
pub fn decide_after_resolve(pending: PendingCheckout, resolution: Result<CommitId, ResolveError>) -> (r:
    DispatchStep)
    ensures
        resolution is Err ==> (r matches DispatchStep::Fallback(reason) && reason
            == FallbackReason::UnresolvableDestination),
        resolution matches Ok(target) ==> (r matches DispatchStep::Dispatch(cr) && {
            &&& cr.target@ == target@
            &&& cr.bookmark_action@ == pending.bookmark_action@
            &&& cr.conflict_policy == pending.conflict_policy
            &&& cr.report_mode == ReportMode::Always
            &&& cr.accelerate == true
        }),
{
    match resolution {
        Err(_) => DispatchStep::Fallback(FallbackReason::UnresolvableDestination),
        Ok(target) => DispatchStep::Dispatch(
            CheckoutRequest {
                target,
                bookmark_action: pending.bookmark_action,
                conflict_policy: pending.conflict_policy,
                report_mode: ReportMode::Always,
                accelerate: true,
            },
        ),
    }
}

} // verus!
