//! The update orchestrator: reconciles flags, on-disk markers and the
//! operation guard into one outcome per invocation.
//!
//! [`plan_update`] runs while the caller holds the working-copy lock. It
//! either ends the invocation (fallback, failure, or an update that is
//! already complete) or produces a [`PendingCheckout`]: the caller then
//! resolves the destination text through the repository collaborator and
//! hands the outcome to [`crate::dispatch::decide_after_resolve`].

use vstd::prelude::*;

use crate::dispatch::BookmarkAction;
use crate::dispatch::BookmarkActionModel;
use crate::dispatch::PendingCheckout;
use crate::errors::ArgError;
use crate::errors::FallbackReason;
use crate::errors::GotoError;
use crate::errors::Operation;
use crate::gate::CompatSnapshot;
use crate::gate::GateResult;
use crate::gate::check_compat;
use crate::gate::gate_reason;
use crate::request::GotoOpts;
use crate::request::arg_error;
use crate::request::policy_spec;
use crate::request::requested_dests;
use crate::request::validate_flags;
use crate::request::lemma_views_push;
use crate::state::MergeState;
use crate::state::StateDir;
use crate::state::StateModel;
use crate::state::classify_and_maybe_clear;
use crate::state::classify_post;
use crate::state::classify_spec;
use crate::state::release_guard;
use crate::state::try_acquire;

verus! {

/// The outcome of planning one update invocation.
pub enum Step {
    /// Defer to the legacy implementation; nothing was mutated.
    Fallback(FallbackReason),
    /// The invocation fails with a user-facing error.
    Failed(GotoError),
    /// `--continue` after every conflict was resolved: the update is already
    /// complete, exit successfully with no further steps.
    AlreadyDone,
    /// Proceed: resolve the destination and dispatch the checkout.
    ResolveAndCheckout(PendingCheckout),
}

/// The guard identity this invocation records: a destructive clean update is
/// distinguished from any other operation.
pub open spec fn goto_operation(o: GotoOpts) -> Operation {
    if o.clean {
        Operation::GotoClean
    } else {
        Operation::Other
    }
}

/// Whether the invocation survives the compatibility gate and flag
/// validation.
pub open spec fn past_gate_and_flags(o: GotoOpts, c: CompatSnapshot) -> bool {
    gate_reason(c, o) is None && arg_error(o) is None
}

/// The destination texts that reach destination selection: the flags' own,
/// plus the interrupted-destination marker when `--continue` resumes a
/// non-merging update.
pub open spec fn candidate_dests(o: GotoOpts, s: StateModel) -> Seq<Seq<char>> {
    if classify_spec(s, o.clean) is NotMerging && o.continue_interrupted {
        requested_dests(o).push(s.update_state->0)
    } else {
        requested_dests(o)
    }
}

/// Whether the invocation proceeds past merge-state handling to guard
/// acquisition and destination selection.
pub open spec fn proceeds(o: GotoOpts, c: CompatSnapshot, s: StateModel) -> bool {
    &&& past_gate_and_flags(o, c)
    &&& !(classify_spec(s, o.clean) is Unresolved)
    &&& !(classify_spec(s, o.clean) is Resolved && o.continue_interrupted)
    &&& !(classify_spec(s, o.clean) is NotMerging && o.continue_interrupted && s.update_state
        is None)
}

/// Plan one update invocation.
///
/// Runs under the working-copy lock. In order: compatibility gate (advisory,
/// before any marker is touched), flag validation, merge-state
/// classification with stale-marker cleanup, `--continue` handling,
/// unconditional consumption of the interrupted-destination marker, guard
/// acquisition, and destination selection. The contract pins the outcome and
/// the final marker state for every input.
pub fn plan_update(opts: &GotoOpts, compat: &CompatSnapshot, state: &mut StateDir) -> (r: Step)
    ensures
        gate_reason(*compat, *opts) matches Some(reason) ==> (r matches Step::Fallback(rr) && rr
            == reason && final(state)@ == old(state)@),
        gate_reason(*compat, *opts) is None ==> (arg_error(*opts) matches Some(k) ==> (r
            matches Step::Failed(e) && e == GotoError::InvalidArguments(k) && final(state)@ == old(
            state,
        )@)),
        past_gate_and_flags(*opts, *compat) && classify_spec(old(state)@, opts.clean)
            is Unresolved ==> (r matches Step::Failed(e) && e == GotoError::UnresolvedConflicts
            && final(state)@ == old(state)@),
        past_gate_and_flags(*opts, *compat) && classify_spec(old(state)@, opts.clean) is Resolved
            && opts.continue_interrupted ==> (r is AlreadyDone && final(state)@ == (StateModel {
            merge_marker: None,
            ..old(state)@
        })),
        past_gate_and_flags(*opts, *compat) && classify_spec(old(state)@, opts.clean)
            is NotMerging && opts.continue_interrupted && old(state)@.update_state is None ==> (r
            matches Step::Failed(e) && e == GotoError::NotInterrupted && final(state)@ == old(
            state,
        )@),
        proceeds(*opts, *compat, old(state)@) ==> (old(state)@.guard matches Some(owner) ==> (r
            matches Step::Failed(e) && e == GotoError::OperationInProgress(owner) && final(state)@
            == (StateModel {
            merge_marker: None,
            update_state: None,
            guard: old(state)@.guard,
        }))),
        proceeds(*opts, *compat, old(state)@) && old(state)@.guard is None && candidate_dests(
            *opts,
            old(state)@,
        ).len() > 1 ==> (r matches Step::Failed(e) && e == GotoError::InvalidArguments(
            ArgError::TooManyDestinations,
        ) && final(state)@ == (StateModel {
            merge_marker: None,
            update_state: None,
            guard: None,
        })),
        proceeds(*opts, *compat, old(state)@) && old(state)@.guard is None && candidate_dests(
            *opts,
            old(state)@,
        ).len() == 0 ==> (r matches Step::Failed(e) && e == GotoError::InvalidArguments(
            ArgError::NoDestination,
        ) && final(state)@ == (StateModel {
            merge_marker: None,
            update_state: None,
            guard: None,
        })),
        proceeds(*opts, *compat, old(state)@) && old(state)@.guard is None && candidate_dests(
            *opts,
            old(state)@,
        ).len() == 1 ==> (r matches Step::ResolveAndCheckout(p) && {
            &&& p.destination@ == candidate_dests(*opts, old(state)@)[0]
            &&& p.conflict_policy == policy_spec(*opts)
            &&& p.bookmark_action@ == (if opts.inactive {
                BookmarkActionModel::UnsetActive
            } else {
                BookmarkActionModel::SetActiveIfValid(candidate_dests(*opts, old(state)@)[0])
            })
            &&& final(state)@ == (StateModel {
                merge_marker: None,
                update_state: None,
                guard: Some(goto_operation(*opts)),
            })
        }),
        past_gate_and_flags(*opts, *compat) && !(classify_spec(old(state)@, opts.clean)
            is Unresolved) ==> final(state)@.merge_marker is None,
{
    match check_compat(compat, opts) {
        GateResult::Fallback(reason) => {
            return Step::Fallback(reason);
        },
        GateResult::Proceed => {},
    }
    let req = match validate_flags(opts) {
        Ok(req) => req,
        Err(e) => {
            return Step::Failed(e);
        },
    };
    let ms = classify_and_maybe_clear(state, opts.clean);
    let mut dest = req.destinations;
    match ms {
        MergeState::Resolved => {
            if opts.continue_interrupted {
                return Step::AlreadyDone;
            }
        },
        MergeState::Unresolved => {
            return Step::Failed(GotoError::UnresolvedConflicts);
        },
        MergeState::NotMerging => {
            if opts.continue_interrupted {
                match &state.update_state {
                    Some(interrupted_dest) => {
                        let interrupted_dest = interrupted_dest.clone();
                        proof {
                            lemma_views_push(dest@, interrupted_dest);
                        }
                        dest.push(interrupted_dest);
                    },
                    None => {
                        return Step::Failed(GotoError::NotInterrupted);
                    },
                }
            }
        },
    }
    // The interrupted destination was either consumed above or superseded by
    // a fresh one: clear it out.
    state.update_state = None;
    let op = if opts.clean {
        Operation::GotoClean
    } else {
        Operation::Other
    };
    if let Err(e) = try_acquire(state, op) {
        return Step::Failed(e);
    }
    if dest.len() > 1 {
        release_guard(state);
        return Step::Failed(GotoError::InvalidArguments(ArgError::TooManyDestinations));
    }
    if dest.len() == 0 {
        release_guard(state);
        return Step::Failed(GotoError::InvalidArguments(ArgError::NoDestination));
    }
    let destination = dest.remove(0);
    let bookmark_action = if opts.inactive {
        BookmarkAction::UnsetActive
    } else {
        BookmarkAction::SetActiveIfValid(destination.clone())
    };
    Step::ResolveAndCheckout(
        PendingCheckout { destination, conflict_policy: req.conflict_policy, bookmark_action },
    )
}

/// The exit code an ended invocation reports: success is 0, every
/// user-facing failure is 1. A fallback or a dispatched checkout has no code
/// of its own: the legacy implementation or the engine supplies it
/// unchanged.
pub fn step_exit_code(step: &Step) -> (r: Option<u8>)
    ensures
        *step is AlreadyDone ==> r == Some(0u8),
        *step is Failed ==> r == Some(1u8),
        *step is Fallback ==> r is None,
        *step is ResolveAndCheckout ==> r is None,
{
    match step {
        Step::AlreadyDone => Some(0),
        Step::Failed(_) => Some(1),
        Step::Fallback(_) => None,
        Step::ResolveAndCheckout(_) => None,
    }
}

/// An existing merge marker with outstanding conflicts, when `--clean` is
/// not set, always classifies as unresolved: the orchestrator then fails
/// with [`GotoError::UnresolvedConflicts`] and leaves the marker intact.
pub proof fn lemma_unresolved_marker_blocks(s: StateModel, o: GotoOpts)
    requires
        s.merge_marker matches Some(paths) && paths.len() > 0,
        !o.clean,
    ensures
        classify_spec(s, o.clean) is Unresolved,
        classify_post(s, o.clean) == s,
{
}

/// An existing merge marker whose conflicts are all resolved never
/// classifies as unresolved, so one invocation with acceptable flags
/// deletes it, with or without `--continue`.
pub proof fn lemma_resolved_marker_cleared(s: StateModel, o: GotoOpts)
    requires
        s.merge_marker matches Some(paths) && paths.len() == 0,
    ensures
        !(classify_spec(s, o.clean) is Unresolved),
        classify_post(s, o.clean).merge_marker is None,
{
}

/// When `--continue` resumes a non-merging update, the destination recorded
/// in the interrupted-destination marker becomes the sole candidate
/// destination: validation has already excluded any caller-supplied one.
pub proof fn lemma_continue_uses_interrupted_destination(
    o: GotoOpts,
    c: CompatSnapshot,
    s: StateModel,
)
    requires
        past_gate_and_flags(o, c),
        o.continue_interrupted,
        classify_spec(s, o.clean) is NotMerging,
        s.update_state is Some,
    ensures
        candidate_dests(o, s).len() == 1,
        candidate_dests(o, s)[0] == s.update_state->0,
{
}

} // verus!
