//! Command metadata and the use-case configuration records.

use std::collections::BTreeMap;

use cmdgoto::command::aliases;
use cmdgoto::command::doc;
use cmdgoto::command::enable_cas;
use cmdgoto::command::synopsis;
use cmdgoto::use_case::EdenFSUseCaseLimits;
use cmdgoto::use_case::ScmUseCase;
use cmdgoto::use_case::ScmUseCaseConfig;
use cmdgoto::use_case::ScmUseCases;

#[test]
fn command_aliases() {
    assert_eq!(aliases(), "goto|go|legacy:update|up|checkout|co");
}

#[test]
fn command_doc_describes_flags() {
    let d = doc();
    assert!(d.starts_with("update working copy to a given commit"));
    assert!(d.contains("--check: abort if there are pending changes"));
    assert!(d.contains("Returns 0 on success, 1 if there are unresolved files."));
}

#[test]
fn command_synopsis() {
    assert_eq!(synopsis(), Some("[OPTION]... [REV]"));
}

#[test]
fn cas_acceleration_is_enabled() {
    assert!(enable_cas());
}

#[test]
fn default_use_case_limits() {
    assert_eq!(EdenFSUseCaseLimits::default().max_concurrent_requests, 512);
}

#[test]
fn use_cases_are_keyed_by_id() {
    let case = ScmUseCase {
        use_case_id: "ci".to_owned(),
        oncall: "scm".to_owned(),
        config: ScmUseCaseConfig {
            edenfs_limits: EdenFSUseCaseLimits::default(),
        },
    };
    let mut map = BTreeMap::new();
    map.insert(case.use_case_id.clone(), case.clone());
    let cases = ScmUseCases { use_cases: map };
    let got = cases.use_cases.get("ci").expect("registered");
    assert_eq!(got, &case);
    assert_eq!(got.config.edenfs_limits.max_concurrent_requests, 512);
}
