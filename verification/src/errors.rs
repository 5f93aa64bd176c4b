//! The error taxonomy of the orchestrator. Every fatal condition of an
//! operation is one of these variants; none is silently swallowed.

use vstd::prelude::*;

verus! {

/// Why an orchestrator operation failed.
#[derive(Debug, Clone, PartialEq, Eq)]
pub enum OrchestratorError {
    /// The root environment-description file is missing and no ad-hoc
    /// overrides were supplied: the user must initialize the project first.
    MissingEnvironmentDescription,
    /// An ad-hoc override key did not carry a `path:type` shape; the payload
    /// is the malformed token.
    InvalidOption(String),
    /// An ad-hoc override declared a type outside the recognized set; the
    /// payload is the unrecognized type name.
    UnsupportedOptionType(String),
    /// The backend reported a failure; the payload is its diagnostic text.
    BackendError(String),
    /// `stop` was called while no pid file exists.
    NotRunning,
    /// The termination signal found no such process.
    ProcessNotFound,
    /// A container stage's script exited non-zero; the payload names the
    /// stage.
    ContainerOperationFailed(String),
    /// This platform cannot produce containers.
    UnsupportedPlatform,
    /// Output handed back by the backend could not be parsed; the payload
    /// says what was being parsed.
    ParseError(String),
    /// No task roots were given to a task run.
    NoTasksSpecified,
    /// At least one task failed, or failed through a dependency.
    TasksFailed,
    /// `up` was called while the configuration defines no processes.
    NoProcessesDefined,
    /// The test script exited non-zero.
    TestsFailed,
}

impl OrchestratorError {
    /// A short stable label for the error, for display by callers.
    pub fn label(&self) -> (r: &'static str)
        ensures
            r@ == self.label_spec(),
    {
        match self {
            OrchestratorError::MissingEnvironmentDescription => "missing environment description",
            OrchestratorError::InvalidOption(_) => "invalid option",
            OrchestratorError::UnsupportedOptionType(_) => "unsupported option type",
            OrchestratorError::BackendError(_) => "backend error",
            OrchestratorError::NotRunning => "no processes running",
            OrchestratorError::ProcessNotFound => "process not found",
            OrchestratorError::ContainerOperationFailed(_) => "container operation failed",
            OrchestratorError::UnsupportedPlatform => "unsupported platform",
            OrchestratorError::ParseError(_) => "parse error",
            OrchestratorError::NoTasksSpecified => "no tasks specified",
            OrchestratorError::TasksFailed => "tasks failed",
            OrchestratorError::NoProcessesDefined => "no processes defined",
            OrchestratorError::TestsFailed => "tests failed",
        }
    }

    /// What `label` returns for each variant.
    pub open spec fn label_spec(&self) -> Seq<char> {
        match self {
            OrchestratorError::MissingEnvironmentDescription => "missing environment description"@,
            OrchestratorError::InvalidOption(_) => "invalid option"@,
            OrchestratorError::UnsupportedOptionType(_) => "unsupported option type"@,
            OrchestratorError::BackendError(_) => "backend error"@,
            OrchestratorError::NotRunning => "no processes running"@,
            OrchestratorError::ProcessNotFound => "process not found"@,
            OrchestratorError::ContainerOperationFailed(_) => "container operation failed"@,
            OrchestratorError::UnsupportedPlatform => "unsupported platform"@,
            OrchestratorError::ParseError(_) => "parse error"@,
            OrchestratorError::NoTasksSpecified => "no tasks specified"@,
            OrchestratorError::TasksFailed => "tasks failed"@,
            OrchestratorError::NoProcessesDefined => "no processes defined"@,
            OrchestratorError::TestsFailed => "tests failed"@,
        }
    }
}

} // verus!
