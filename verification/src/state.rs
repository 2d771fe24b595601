//! Model of the working copy's private state directory: the merge marker,
//! the interrupted-destination marker and the operation guard.
//!
//! Callers load the on-disk markers into a [`StateDir`], run the verified
//! transitions while holding the working-copy lock, and replay the resulting
//! value back to disk.

use vstd::prelude::*;

use crate::errors::GotoError;
use crate::errors::Operation;

verus! {

/// Persisted record of an unfinished merge operation: the snapshot of
/// still-unresolved paths. An empty snapshot means every conflict has been
/// resolved.
pub struct MergeMarker {
    /// Paths whose conflicts are not yet resolved.
    pub unresolved_paths: Vec<String>,
}

/// In-memory image of the state directory's markers.
pub struct StateDir {
    /// The merge marker, present while a merge operation is unfinished.
    pub merge_marker: Option<MergeMarker>,
    /// The interrupted-destination marker: the target commit text of an
    /// update that did not complete.
    pub update_state: Option<String>,
    /// The operation guard: the identity of the currently-active
    /// repository-wide operation, if any.
    pub guard: Option<Operation>,
}

/// Mathematical model of a [`StateDir`].
#[verifier::ext_equal]
pub ghost struct StateModel {
    /// Unresolved paths of the merge marker, if the marker exists.
    pub merge_marker: Option<Seq<Seq<char>>>,
    /// Content of the interrupted-destination marker, if it exists.
    pub update_state: Option<Seq<char>>,
    /// The recorded operation, if the guard is held.
    pub guard: Option<Operation>,
}

impl View for StateDir {
    type V = StateModel;

    open spec fn view(&self) -> StateModel {
        StateModel {
            merge_marker: match self.merge_marker {
                Some(m) => Some(m.unresolved_paths@.map_values(|p: String| p@)),
                None => None,
            },
            update_state: match self.update_state {
                Some(s) => Some(s@),
                None => None,
            },
            guard: self.guard,
        }
    }
}

/// Classification of the on-disk merge state, derived once per update
/// attempt.
#[derive(Clone, Copy, Debug, PartialEq, Eq, Structural)]
pub enum MergeState {
    /// No merge marker exists.
    NotMerging,
    /// A merge marker exists and every conflict is resolved.
    Resolved,
    /// A merge marker exists with outstanding conflicts.
    Unresolved,
}

/// How [`classify_and_maybe_clear`] classifies a state directory.
pub open spec fn classify_spec(s: StateModel, discard: bool) -> MergeState {
    match s.merge_marker {
        None => MergeState::NotMerging,
        Some(paths) => if discard {
            MergeState::NotMerging
        } else if paths.len() > 0 {
            MergeState::Unresolved
        } else {
            MergeState::Resolved
        },
    }
}

/// The state directory after [`classify_and_maybe_clear`]: the merge marker
/// survives only an `Unresolved` classification.
pub open spec fn classify_post(s: StateModel, discard: bool) -> StateModel {
    StateModel {
        merge_marker: if classify_spec(s, discard) is Unresolved {
            s.merge_marker
        } else {
            None
        },
        ..s
    }
}

/// Classify the merge state and clear the merge marker when it is stale:
/// unconditionally under `discard`, and whenever every conflict is resolved.
/// Runs before the operation guard is acquired, since clearing stale merge
/// state is idempotent and must not be blocked by a guard meant for the new
/// operation.
pub fn classify_and_maybe_clear(state: &mut StateDir, discard: bool) -> (r: MergeState)
    ensures
        r == classify_spec(old(state)@, discard),
        final(state)@ == classify_post(old(state)@, discard),
{
    if state.merge_marker.is_none() {
        return MergeState::NotMerging;
    }
    if discard {
        state.merge_marker = None;
        return MergeState::NotMerging;
    }
    let has_unresolved = match &state.merge_marker {
        Some(m) => m.unresolved_paths.len() > 0,
        None => false,
    };
    if has_unresolved {
        MergeState::Unresolved
    } else {
        state.merge_marker = None;
        MergeState::Resolved
    }
}

/// Record `op` in the operation guard, or report the current owner.
///
/// The guard is advisory state tied to the working-copy lock's lifetime; the
/// caller must already hold exclusive access. At most one operation owns the
/// guard at a time; a second acquisition without release fails and names the
/// first owner.
pub fn try_acquire(state: &mut StateDir, op: Operation) -> (r: Result<(), GotoError>)
    ensures
        old(state)@.guard matches Some(owner) ==> {
            &&& r == Err::<(), GotoError>(GotoError::OperationInProgress(owner))
            &&& final(state)@ == old(state)@
        },
        old(state)@.guard is None ==> {
            &&& r == Ok::<(), GotoError>(())
            &&& final(state)@ == (StateModel { guard: Some(op), ..old(state)@ })
        },
{
    match state.guard {
        Some(owner) => Err(GotoError::OperationInProgress(owner)),
        None => {
            state.guard = Some(op);
            Ok(())
        },
    }
}

/// Clear the operation guard; the owning operation does this on completion
/// or abort.
pub fn release_guard(state: &mut StateDir)
    ensures
        final(state)@ == (StateModel { guard: None, ..old(state)@ }),
{
    state.guard = None;
}

} // verus!
