//! Raw command flags and the flag validator that turns them into a
//! validated update request.

use vstd::prelude::*;

use crate::errors::ArgError;
use crate::errors::GotoError;

verus! {

/// Raw flags of one `goto` invocation, exactly as the command line supplies
/// them.
pub struct GotoOpts {
    /// `-C/--clean`: discard uncommitted changes.
    pub clean: bool,
    /// `-c/--check`: require a clean working copy.
    pub check: bool,
    /// `-m/--merge`: merge pending changes (unsupported here).
    pub merge: bool,
    /// `-d/--date DATE`: tipmost revision matching a date (unsupported
    /// here); empty when absent.
    pub date: String,
    /// `-r/--rev REV`: destination revision; empty when absent.
    pub rev: String,
    /// `--inactive`: update without activating bookmarks.
    pub inactive: bool,
    /// `--continue`: resume an interrupted update.
    pub continue_interrupted: bool,
    /// `-B/--bookmark VALUE`: create a new bookmark (unsupported here).
    pub bookmark: Option<String>,
    /// Positional arguments: an alternative destination source.
    pub args: Vec<String>,
}

/// How pending uncommitted changes interact with the destination commit's
/// content during the update. Exactly one policy applies per request.
#[derive(Clone, Copy, Debug, PartialEq, Eq, Structural)]
pub enum ConflictPolicy {
    /// Abort when the update would conflict with pending changes.
    AbortIfConflicts,
    /// Abort when any uncommitted change exists.
    AbortIfUncommittedChanges,
    /// Discard pending changes that conflict.
    RevertConflicts,
    /// Merge pending changes into the destination.
    MergeConflicts,
}

/// A validated update request, immutable once constructed.
pub struct UpdateRequest {
    /// Candidate destination texts: positional arguments followed by
    /// `--rev`, in that order.
    pub destinations: Vec<String>,
    /// The single conflict policy the flags selected.
    pub conflict_policy: ConflictPolicy,
    /// Whether this invocation resumes an interrupted update.
    pub continue_interrupted: bool,
    /// Whether bookmark activation is suppressed.
    pub inactive: bool,
}

impl UpdateRequest {
    /// Invariant established by validation: a resumed update carries no
    /// destination of its own.
    pub open spec fn wf(self) -> bool {
        self.continue_interrupted ==> self.destinations@.len() == 0
    }
}

/// The contents of a sequence of strings.
pub open spec fn views_of(v: Seq<String>) -> Seq<Seq<char>> {
    v.map_values(|s: String| s@)
}

/// The candidate destination texts the flags themselves supply: positional
/// arguments followed by `--rev` when it is non-empty.
pub open spec fn requested_dests(o: GotoOpts) -> Seq<Seq<char>> {
    if o.rev@.len() == 0 {
        views_of(o.args@)
    } else {
        views_of(o.args@).push(o.rev@)
    }
}

/// How many of the mutually exclusive conflict flags are set.
pub open spec fn conflict_flag_count(o: GotoOpts) -> int {
    (if o.check {
        1int
    } else {
        0int
    }) + (if o.clean {
        1int
    } else {
        0int
    }) + (if o.merge {
        1int
    } else {
        0int
    })
}

/// The conflict policy the flags select once validation has passed.
pub open spec fn policy_spec(o: GotoOpts) -> ConflictPolicy {
    if o.clean {
        ConflictPolicy::RevertConflicts
    } else if o.merge {
        ConflictPolicy::MergeConflicts
    } else if o.check {
        ConflictPolicy::AbortIfUncommittedChanges
    } else {
        ConflictPolicy::AbortIfConflicts
    }
}

/// The first flag-combination violation, in checking order, or `None` when
/// the flags are consistent.
pub open spec fn arg_error(o: GotoOpts) -> Option<ArgError> {
    if o.clean && o.continue_interrupted {
        Some(ArgError::CleanWithContinue)
    } else if requested_dests(o).len() > 0 && o.continue_interrupted {
        Some(ArgError::DestinationWithContinue)
    } else if conflict_flag_count(o) > 1 {
        Some(ArgError::MultipleConflictFlags)
    } else {
        None
    }
}

/// Pushing one string commutes with taking contents.
pub proof fn lemma_views_push(v: Seq<String>, x: String)
    ensures
        views_of(v.push(x)) == views_of(v).push(x@),
{
    assert(views_of(v.push(x)) =~= views_of(v).push(x@));
}

/// Copy a list of strings.
fn clone_string_vec(v: &Vec<String>) -> (r: Vec<String>)
    ensures
        r@ == v@,
{
    let mut r: Vec<String> = Vec::new();
    let mut i: usize = 0;
    while i < v.len()
        invariant
            i <= v@.len(),
            r@ == v@.subrange(0, i as int),
        decreases v@.len() - i,
    {
        r.push(v[i].clone());
        assert(r@ =~= v@.subrange(0, i + 1 as int));
        i = i + 1;
    }
    assert(r@ =~= v@);
    r
}

/// Validate the raw flags into an [`UpdateRequest`], or fail with the first
/// flag-combination violation. Checked before any lock is taken or marker
/// is touched.
pub fn validate_flags(o: &GotoOpts) -> (r: Result<UpdateRequest, GotoError>)
    ensures
        arg_error(*o) matches Some(k) ==> r == Err::<UpdateRequest, GotoError>(
            GotoError::InvalidArguments(k),
        ),
        arg_error(*o) is None ==> (r matches Ok(req) && {
            &&& views_of(req.destinations@) == requested_dests(*o)
            &&& req.conflict_policy == policy_spec(*o)
            &&& req.continue_interrupted == o.continue_interrupted
            &&& req.inactive == o.inactive
            &&& req.wf()
        }),
{
    if o.clean && o.continue_interrupted {
        return Err(GotoError::InvalidArguments(ArgError::CleanWithContinue));
    }
    let mut destinations = clone_string_vec(&o.args);
    if !o.rev.as_str().is_empty() {
        destinations.push(o.rev.clone());
        proof {
            lemma_views_push(o.args@, o.rev);
        }
    }
    if destinations.len() > 0 && o.continue_interrupted {
        return Err(GotoError::InvalidArguments(ArgError::DestinationWithContinue));
    }
    let conflict_flags: u32 = (if o.check {
        1
    } else {
        0
    }) + (if o.clean {
        1
    } else {
        0
    }) + (if o.merge {
        1
    } else {
        0
    });
    if conflict_flags > 1 {
        return Err(GotoError::InvalidArguments(ArgError::MultipleConflictFlags));
    }
    let conflict_policy = if o.clean {
        ConflictPolicy::RevertConflicts
    } else if o.merge {
        ConflictPolicy::MergeConflicts
    } else if o.check {
        ConflictPolicy::AbortIfUncommittedChanges
    } else {
        ConflictPolicy::AbortIfConflicts
    };
    Ok(
        UpdateRequest {
            destinations,
            conflict_policy,
            continue_interrupted: o.continue_interrupted,
            inactive: o.inactive,
        },
    )
}

/// More than one of `--check`, `--clean`, `--merge` always fails flag
/// validation.
pub proof fn lemma_conflicting_flags_rejected(o: GotoOpts)
    requires
        conflict_flag_count(o) > 1,
    ensures
        arg_error(o) is Some,
{
}

/// A concrete destination together with `--continue` always fails flag
/// validation.
pub proof fn lemma_destination_with_continue_rejected(o: GotoOpts)
    requires
        requested_dests(o).len() > 0,
        o.continue_interrupted,
    ensures
        arg_error(o) is Some,
{
}

} // verus!
