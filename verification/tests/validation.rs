//! Flag validation, the compatibility gate and the operation guard.

use cmdgoto::errors::ArgError;
use cmdgoto::errors::FallbackReason;
use cmdgoto::errors::GotoError;
use cmdgoto::errors::Operation;
use cmdgoto::gate::CompatSnapshot;
use cmdgoto::gate::GateResult;
use cmdgoto::gate::check_compat;
use cmdgoto::orchestrate::Step;
use cmdgoto::orchestrate::plan_update;
use cmdgoto::request::ConflictPolicy;
use cmdgoto::request::GotoOpts;
use cmdgoto::request::validate_flags;
use cmdgoto::state::StateDir;
use cmdgoto::state::release_guard;
use cmdgoto::state::try_acquire;

fn base_opts() -> GotoOpts {
    GotoOpts {
        clean: false,
        check: false,
        merge: false,
        date: String::new(),
        rev: String::new(),
        inactive: false,
        continue_interrupted: false,
        bookmark: None,
        args: Vec::new(),
    }
}

fn compat_ok() -> CompatSnapshot {
    CompatSnapshot {
        use_rust: true,
        update_check_none: false,
        wc_parent_count: 1,
        git_format: false,
    }
}

fn empty_state() -> StateDir {
    StateDir {
        merge_marker: None,
        update_state: None,
        guard: None,
    }
}

#[test]
fn conflicting_flag_pairs_are_invalid() {
    // Every combination setting more than one of check/clean/merge fails
    // flag validation, and the state directory is untouched.
    let combos = [
        (true, true, false),
        (true, false, true),
        (false, true, true),
        (true, true, true),
    ];
    for (check, clean, merge) in combos {
        let mut opts = base_opts();
        opts.check = check;
        opts.clean = clean;
        opts.merge = merge;
        // `--merge` alone already defers to the legacy implementation, so
        // `plan_update` sees only the combinations without it.
        let r = validate_flags(&opts);
        assert!(matches!(r, Err(GotoError::InvalidArguments(_))));
        if !merge {
            let mut state = empty_state();
            state.update_state = Some("abc".to_owned());
            let step = plan_update(&opts, &compat_ok(), &mut state);
            assert!(matches!(
                step,
                Step::Failed(GotoError::InvalidArguments(_))
            ));
            assert_eq!(state.update_state.as_deref(), Some("abc"));
            assert!(state.guard.is_none());
        }
    }
}

#[test]
fn clean_with_continue_is_invalid() {
    let mut opts = base_opts();
    opts.clean = true;
    opts.continue_interrupted = true;
    assert!(matches!(
        validate_flags(&opts),
        Err(GotoError::InvalidArguments(ArgError::CleanWithContinue))
    ));
}

#[test]
fn rev_with_continue_is_invalid() {
    let mut opts = base_opts();
    opts.rev = "main".to_owned();
    opts.continue_interrupted = true;
    assert!(matches!(
        validate_flags(&opts),
        Err(GotoError::InvalidArguments(ArgError::DestinationWithContinue))
    ));
}

#[test]
fn each_conflict_flag_selects_its_policy() {
    let mut opts = base_opts();
    opts.clean = true;
    assert_eq!(
        validate_flags(&opts).unwrap().conflict_policy,
        ConflictPolicy::RevertConflicts
    );

    let mut opts = base_opts();
    opts.check = true;
    assert_eq!(
        validate_flags(&opts).unwrap().conflict_policy,
        ConflictPolicy::AbortIfUncommittedChanges
    );

    let mut opts = base_opts();
    opts.merge = true;
    assert_eq!(
        validate_flags(&opts).unwrap().conflict_policy,
        ConflictPolicy::MergeConflicts
    );

    let opts = base_opts();
    assert_eq!(
        validate_flags(&opts).unwrap().conflict_policy,
        ConflictPolicy::AbortIfConflicts
    );
}

#[test]
fn positional_and_rev_concatenate() {
    let mut opts = base_opts();
    opts.args = vec!["a".to_owned()];
    opts.rev = "b".to_owned();
    let req = validate_flags(&opts).unwrap();
    assert_eq!(req.destinations, vec!["a".to_owned(), "b".to_owned()]);
}

#[test]
fn gate_defers_in_priority_order() {
    let opts = base_opts();

    let mut c = compat_ok();
    c.use_rust = false;
    assert_eq!(
        check_compat(&c, &opts),
        GateResult::Fallback(FallbackReason::UseRustDisabled)
    );

    let mut c = compat_ok();
    c.update_check_none = true;
    assert_eq!(
        check_compat(&c, &opts),
        GateResult::Fallback(FallbackReason::UpdateCheckSetToNone)
    );

    let mut c = compat_ok();
    c.wc_parent_count = 2;
    assert_eq!(
        check_compat(&c, &opts),
        GateResult::Fallback(FallbackReason::MultipleParents)
    );

    let mut c = compat_ok();
    c.git_format = true;
    assert_eq!(
        check_compat(&c, &opts),
        GateResult::Fallback(FallbackReason::GitFormat)
    );

    // Two conditions at once: the earlier one wins.
    let mut c = compat_ok();
    c.use_rust = false;
    c.git_format = true;
    assert_eq!(
        check_compat(&c, &opts),
        GateResult::Fallback(FallbackReason::UseRustDisabled)
    );
}

#[test]
fn gate_defers_on_unsupported_flags() {
    let mut opts = base_opts();
    opts.merge = true;
    assert_eq!(
        check_compat(&compat_ok(), &opts),
        GateResult::Fallback(FallbackReason::UnsupportedFlags)
    );

    let mut opts = base_opts();
    opts.date = "2020-01-01".to_owned();
    assert_eq!(
        check_compat(&compat_ok(), &opts),
        GateResult::Fallback(FallbackReason::UnsupportedFlags)
    );

    let mut opts = base_opts();
    opts.bookmark = Some("feature".to_owned());
    assert_eq!(
        check_compat(&compat_ok(), &opts),
        GateResult::Fallback(FallbackReason::BookmarkUnsupported)
    );
}

#[test]
fn gate_proceeds_on_supported_input() {
    let opts = base_opts();
    assert_eq!(check_compat(&compat_ok(), &opts), GateResult::Proceed);
}

#[test]
fn gate_runs_before_flag_validation() {
    // `--merge --clean` is both unsupported (merge) and mutually
    // inconsistent; the advisory deferral wins because it is decided before
    // any flag validation.
    let mut opts = base_opts();
    opts.merge = true;
    opts.clean = true;
    let mut state = empty_state();
    let step = plan_update(&opts, &compat_ok(), &mut state);
    assert!(matches!(
        step,
        Step::Fallback(FallbackReason::UnsupportedFlags)
    ));
}

#[test]
fn gate_fallback_is_side_effect_free() {
    let mut opts = base_opts();
    opts.args = vec!["main".to_owned()];
    let mut c = compat_ok();
    c.use_rust = false;
    let mut state = empty_state();
    state.update_state = Some("abc".to_owned());

    let step = plan_update(&opts, &c, &mut state);
    assert!(matches!(
        step,
        Step::Fallback(FallbackReason::UseRustDisabled)
    ));
    assert_eq!(state.update_state.as_deref(), Some("abc"));
    assert!(state.guard.is_none());
}

#[test]
fn fallback_messages_are_stable() {
    assert_eq!(
        FallbackReason::UseRustDisabled.message(),
        "checkout.use-rust is False"
    );
    assert_eq!(
        FallbackReason::UpdateCheckSetToNone.message(),
        "commands.update.check=none"
    );
    assert_eq!(
        FallbackReason::MultipleParents.message(),
        "multiple working copy parents"
    );
    assert_eq!(
        FallbackReason::GitFormat.message(),
        "git format unsupported (submodules)"
    );
    assert_eq!(
        FallbackReason::UnsupportedFlags.message(),
        "one or more unsupported options in Rust checkout"
    );
    assert_eq!(
        FallbackReason::BookmarkUnsupported.message(),
        "--bookmark not supported"
    );
}

#[test]
fn guard_rejects_second_acquisition() {
    // Acquiring the guard twice without release fails the second time and
    // reports the first operation's identity.
    let mut state = empty_state();
    assert!(try_acquire(&mut state, Operation::GotoClean).is_ok());
    assert_eq!(
        try_acquire(&mut state, Operation::Other),
        Err(GotoError::OperationInProgress(Operation::GotoClean))
    );
    assert_eq!(state.guard, Some(Operation::GotoClean));
}

#[test]
fn guard_can_be_reacquired_after_release() {
    let mut state = empty_state();
    assert!(try_acquire(&mut state, Operation::Other).is_ok());
    release_guard(&mut state);
    assert!(state.guard.is_none());
    assert!(try_acquire(&mut state, Operation::GotoClean).is_ok());
    assert_eq!(state.guard, Some(Operation::GotoClean));
}
