//! Exit outcomes: the fatal error kinds of a run and the exit code that each
//! one reserves, and the mapping from a child's termination to the code the
//! run itself reports.

use vstd::prelude::*;

verus! {

/// Exit code reserved for a failure to allocate the temporary workspace.
pub const WORKSPACE_FAILURE_CODE: i32 = 2;

/// Exit code reserved for a failure to spawn the requested utility.
pub const SPAWN_FAILURE_CODE: i32 = 3;

/// Exit code reserved for an I/O failure while capturing standard input.
pub const CAPTURE_FAILURE_CODE: i32 = 4;

/// Sentinel reported when the child terminated without an exit code, for
/// instance because a signal killed it. Abnormal termination of the child is
/// not an internal error of the run, but it must still surface as a nonzero
/// code of its own.
pub const CHILD_SIGNALLED_CODE: i32 = 125;

/// The kinds of fatal error a run can end with. Every one of them is
/// terminal: nothing is retried, and each kind reserves a distinct nonzero
/// exit code.
#[derive(Clone, Copy, Debug, PartialEq, Eq, Structural)]
pub enum FailureKind {
    /// The temporary directory or the file inside it could not be created.
    WorkspaceError,
    /// Reading standard input or writing the workspace file failed.
    CaptureError,
    /// The utility could not be started at all.
    SpawnError,
}

impl FailureKind {
    /// The exit code this kind of fatal error reserves.
    pub open spec fn spec_exit_code(self) -> i32 {
        match self {
            FailureKind::WorkspaceError => WORKSPACE_FAILURE_CODE,
            FailureKind::CaptureError => CAPTURE_FAILURE_CODE,
            FailureKind::SpawnError => SPAWN_FAILURE_CODE,
        }
    }

    /// The exit code the run reports when it ends with this fatal error.
    pub fn exit_code(&self) -> (code: i32)
        ensures
            code == self.spec_exit_code(),
    {
        match self {
            FailureKind::WorkspaceError => WORKSPACE_FAILURE_CODE,
            FailureKind::CaptureError => CAPTURE_FAILURE_CODE,
            FailureKind::SpawnError => SPAWN_FAILURE_CODE,
        }
    }
}

/// Every fatal error kind reserves a nonzero code, no two kinds share one,
/// and none of them collides with the sentinel for an abnormally terminated
/// child, so the caller can always tell the four conditions apart.
pub proof fn lemma_exit_codes_distinct(a: FailureKind, b: FailureKind)
    ensures
        a.spec_exit_code() != 0,
        a.spec_exit_code() != CHILD_SIGNALLED_CODE,
        a != b ==> a.spec_exit_code() != b.spec_exit_code(),
{
}

/// The code the child's termination contributes to the run: its own exit
/// code when it exited normally, the fixed sentinel when that code is
/// unavailable.
pub fn child_exit_outcome(code: Option<i32>) -> (outcome: i32)
    ensures
        outcome == (match code {
            Some(c) => c,
            None => CHILD_SIGNALLED_CODE,
        }),
{
    match code {
        Some(c) => c,
        None => CHILD_SIGNALLED_CODE,
    }
}

} // verus!
