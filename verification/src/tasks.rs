//! The task-run boundary: the checks and small decisions around handing a
//! run specification to the external task engine and judging its
//! aggregate status.

use vstd::prelude::*;

use crate::errors::OrchestratorError;

verus! {

/// The aggregate status the task engine reports for one run.
#[derive(Clone, Copy, Debug, PartialEq, Eq, Structural)]
pub struct TasksStatus {
    pub succeeded: u64,
    pub failed: u64,
    pub dependency_failed: u64,
}

/// How much the task UI says.
#[derive(Clone, Copy, Debug, PartialEq, Eq, Structural)]
pub enum VerbosityLevel {
    Quiet,
    Normal,
    Verbose,
}

/// The verbosity the run uses: quiet wins over verbose, and without either
/// flag the level is normal.
pub fn verbosity_from(quiet: bool, verbose: bool) -> (r: VerbosityLevel)
    ensures
        quiet ==> r == VerbosityLevel::Quiet,
        !quiet && verbose ==> r == VerbosityLevel::Verbose,
        !quiet && !verbose ==> r == VerbosityLevel::Normal,
{
    if quiet {
        VerbosityLevel::Quiet
    } else if verbose {
        VerbosityLevel::Verbose
    } else {
        VerbosityLevel::Normal
    }
}

/// A run needs at least one task root; without one it fails before any
/// work.
pub fn tasks_run_precheck(roots: &Vec<String>) -> (r: Result<(), OrchestratorError>)
    ensures
        roots@.len() == 0 ==> r == Err::<(), OrchestratorError>(
            OrchestratorError::NoTasksSpecified,
        ),
        roots@.len() > 0 ==> r is Ok,
{
    if roots.len() == 0 {
        Err(OrchestratorError::NoTasksSpecified)
    } else {
        Ok(())
    }
}

/// Judges the engine's aggregate status: any failed task, direct or
/// through a dependency, fails the whole run; otherwise the outputs are
/// handed back verbatim.
pub fn judge_tasks_status(status: &TasksStatus) -> (r: Result<(), OrchestratorError>)
    ensures
        status.failed > 0 || status.dependency_failed > 0 ==> r == Err::<(), OrchestratorError>(
            OrchestratorError::TasksFailed,
        ),
        status.failed == 0 && status.dependency_failed == 0 ==> r is Ok,
{
    if status.failed > 0 || status.dependency_failed > 0 {
        Err(OrchestratorError::TasksFailed)
    } else {
        Ok(())
    }
}

/// Judges the test script's exit: a non-zero exit fails the test run.
pub fn judge_test_outcome(exit_success: bool) -> (r: Result<(), OrchestratorError>)
    ensures
        exit_success <==> r is Ok,
        !exit_success ==> r == Err::<(), OrchestratorError>(OrchestratorError::TestsFailed),
{
    if exit_success {
        Ok(())
    } else {
        Err(OrchestratorError::TestsFailed)
    }
}

/// `up` needs the configuration to define processes.
pub fn up_precheck(has_processes: bool) -> (r: Result<(), OrchestratorError>)
    ensures
        has_processes <==> r is Ok,
        !has_processes ==> r == Err::<(), OrchestratorError>(
            OrchestratorError::NoProcessesDefined,
        ),
{
    if has_processes {
        Ok(())
    } else {
        Err(OrchestratorError::NoProcessesDefined)
    }
}

} // verus!
