//! Use-case configuration records for the client: per-use-case limits keyed
//! by use-case identifier. Serialized forms of these records live with the
//! caller; the library holds the bare data.

use std::collections::BTreeMap;

use vstd::prelude::*;

verus! {

/// Client-side limits applied to one use case.
#[derive(Clone, Debug, PartialEq, Eq, PartialOrd, Ord, Hash)]
pub struct EdenFSUseCaseLimits {
    /// Upper bound on requests served concurrently for the use case.
    pub max_concurrent_requests: i32,
}

/// Configuration of one use case.
#[derive(Clone, Debug, PartialEq)]
pub struct ScmUseCaseConfig {
    /// The client-side limits of the use case.
    pub edenfs_limits: EdenFSUseCaseLimits,
}

/// One registered use case.
#[derive(Clone, Debug, PartialEq)]
pub struct ScmUseCase {
    /// Identifier of the use case.
    pub use_case_id: String,
    /// The team responsible for the use case.
    pub oncall: String,
    /// Its configuration.
    pub config: ScmUseCaseConfig,
}

/// All registered use cases, keyed by identifier.
#[derive(Clone, Debug, PartialEq)]
pub struct ScmUseCases {
    /// The registered use cases.
    pub use_cases: BTreeMap<String, ScmUseCase>,
}

impl Default for EdenFSUseCaseLimits {
    /// The default limit allows 512 concurrent requests.
    fn default() -> (r: Self)
        ensures
            r.max_concurrent_requests == 512,
    {
        Self { max_concurrent_requests: 512 }
    }
}

} // verus!
