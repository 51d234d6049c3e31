//! The failure taxonomy of the diagnostic stages.  Every stage failure is
//! one of these values; the orchestrator records them in the report and
//! the caller renders them.  None of them aborts a run.

use vstd::prelude::*;

verus! {

/// A stage-local failure.  Carried inside a `Fail` outcome; never unwinds
/// past the orchestrator.
#[derive(Debug)]
pub enum StageError {
    /// The running kernel is older than the minimum the tooling needs.
    IncompatibleKernelVersion { minimum: (u32, u32, u32) },
    /// The host identity string names no supported package-management family.
    UnsupportedPlatform { identity: String },
    /// Required packages are absent and remediation was declined.
    MissingPackages { packages: Vec<String> },
    /// A stage could not run because a helper tool it needs is missing.
    MissingDependency { tool: String },
    /// Kernel build-time feature flags that are not enabled.
    MissingKernelFlags { lines: Vec<String> },
    /// The configured network interface is not present on the host.
    InterfaceNotFound { name: String },
}

} // verus!
