use vstd::prelude::*;

verus! {

/// Why a build stops. Every error ends the build where it is detected.
pub enum BuildError {
    /// The SDK path given does not name an existing directory.
    SdkNotFound { path: String },
    /// The package metadata could not be obtained.
    MetadataUnavailable { message: String },
    /// The workspace has no root package.
    NoRootPackage { workspace_root: String },
    /// The directory holding the root package's manifest is unknown.
    NoPackageDirectory { package: String },
    /// The root package declares more than one loadable-module target.
    MultipleModuleTargets { package: String, targets: Vec<String> },
    /// A stage's program could not be started.
    StageNotStarted { program: String, reason: String },
    /// A stage's program ran and reported failure.
    StageFailed { program: String },
}

} // verus!
