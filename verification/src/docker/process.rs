//! What becomes of one external command once it has been run.
use vstd::prelude::*;

verus! {

/// How a process left, as the platform reports it.
#[derive(Debug, Clone, PartialEq, Eq)]
pub struct ExitStatus {
    /// The exit code; `None` when a signal ended the process and there is no
    /// code.
    pub code: Option<i32>,
    /// The status in the platform's own words, for the user to read.
    pub description: String,
}

/// [`ExitStatus`] with its text as a sequence of characters.
pub struct ExitStatusView {
    pub code: Option<i32>,
    pub description: Seq<char>,
}

impl View for ExitStatus {
    type V = ExitStatusView;

    open spec fn view(&self) -> ExitStatusView {
        ExitStatusView { code: self.code, description: self.description@ }
    }
}

/// How an external command ended, as the caller that ran it observed.
#[derive(Debug, Clone, PartialEq, Eq)]
pub enum ProcessOutcome {
    /// The process ran and left with this status.
    Exited(ExitStatus),
    /// The process could not be started or waited for; the cause in words.
    SpawnFailed(String),
}

/// Why an external command counts as failed.
#[derive(Debug, Clone, PartialEq, Eq)]
pub enum ExecutionError {
    /// The process ran and did not leave with exit code zero.
    NonZeroExit(ExitStatus),
    /// The process could not be started or waited for.
    SpawnFailed(String),
}

/// [`ExecutionError`] with its text as sequences of characters.
pub enum ExecutionErrorView {
    NonZeroExit(ExitStatusView),
    SpawnFailed(Seq<char>),
}

impl View for ExecutionError {
    type V = ExecutionErrorView;

    open spec fn view(&self) -> ExecutionErrorView {
        match *self {
            ExecutionError::NonZeroExit(status) => ExecutionErrorView::NonZeroExit(status@),
            ExecutionError::SpawnFailed(cause) => ExecutionErrorView::SpawnFailed(cause@),
        }
    }
}

/// Whether an exit code is the one that means success.
pub open spec fn is_success(code: Option<i32>) -> bool {
    code == Some(0i32)
}

/// Turns the end of an external command into success or a typed failure:
/// exit code zero is success, any other end of a started process is
/// `NonZeroExit` with the status as observed, and a process that never
/// started is `SpawnFailed` with the cause unchanged.
pub fn command_result(outcome: ProcessOutcome) -> (res: Result<(), ExecutionError>)
    ensures
        match outcome {
            ProcessOutcome::Exited(status) => if is_success(status.code) {
                res is Ok
            } else {
                res matches Err(e) && e@ == ExecutionErrorView::NonZeroExit(status@)
            },
            ProcessOutcome::SpawnFailed(cause) => res matches Err(e) && e@
                == ExecutionErrorView::SpawnFailed(cause@),
        },
{
    match outcome {
        ProcessOutcome::Exited(status) => {
            match status.code {
                Some(0) => Ok(()),
                _ => Err(ExecutionError::NonZeroExit(status)),
            }
        },
        ProcessOutcome::SpawnFailed(cause) => Err(ExecutionError::SpawnFailed(cause)),
    }
}

} // verus!
