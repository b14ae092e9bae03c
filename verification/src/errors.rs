//! The error kinds the orchestrator reports. Every text carried by a variant
//! came from outside (a filesystem error, the toolchain's diagnostic) and is
//! treated as opaque data.

use vstd::prelude::*;
use vstd::string::StringExecFns;

verus! {

/// Mathematical model of a [`BuildError`].
pub enum ErrorModel {
    /// A filesystem create, read, write, or remove failed.
    Io(Seq<char>),
    /// The state file exists but cannot be parsed.
    CorruptState,
    /// The toolchain executable could not be launched.
    SpawnFailed(Seq<char>),
    /// The toolchain ran and reported failure; the captured diagnostic text.
    ToolchainFailed(Seq<char>),
    /// The build reported success but the expected output file is absent.
    MissingArtifact,
}

/// An error surfaced to the caller of the orchestrator. Nothing is retried:
/// every error ends the current request.
pub enum BuildError {
    /// A filesystem create, read, write, or remove failed.
    Io(String),
    /// The state file exists but cannot be parsed.
    CorruptState,
    /// The toolchain executable could not be launched.
    SpawnFailed(String),
    /// The toolchain ran and reported failure; the captured diagnostic text.
    ToolchainFailed(String),
    /// The build reported success but the expected output file is absent.
    MissingArtifact,
}

impl View for BuildError {
    type V = ErrorModel;

    open spec fn view(&self) -> ErrorModel {
        match self {
            BuildError::Io(t) => ErrorModel::Io(t@),
            BuildError::CorruptState => ErrorModel::CorruptState,
            BuildError::SpawnFailed(t) => ErrorModel::SpawnFailed(t@),
            BuildError::ToolchainFailed(t) => ErrorModel::ToolchainFailed(t@),
            BuildError::MissingArtifact => ErrorModel::MissingArtifact,
        }
    }
}

impl BuildError {
    /// The opaque diagnostic text of this error: the carried external text
    /// where there is one, a fixed description otherwise.
    pub fn diagnostic(&self) -> (r: String)
        ensures
            (match self@ {
                ErrorModel::Io(t) => r@ == t,
                ErrorModel::CorruptState => r@ == "corrupt state record"@,
                ErrorModel::SpawnFailed(t) => r@ == t,
                ErrorModel::ToolchainFailed(t) => r@ == t,
                ErrorModel::MissingArtifact => r@ == "missing compiled artifact"@,
            }),
    {
        match self {
            BuildError::Io(t) => t.clone(),
            BuildError::CorruptState => String::from_str("corrupt state record"),
            BuildError::SpawnFailed(t) => t.clone(),
            BuildError::ToolchainFailed(t) => t.clone(),
            BuildError::MissingArtifact => String::from_str("missing compiled artifact"),
        }
    }
}

} // verus!
