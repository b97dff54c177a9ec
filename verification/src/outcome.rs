//! The unit of information that flows back from an external process: either
//! the process could not be launched at all, or it ran to completion with an
//! exit status and captured output.

use vstd::prelude::*;

verus! {

/// What a completed external process left behind.
pub struct CommandOutcome {
    pub success: bool,
    pub stdout: String,
    pub stderr: String,
}

/// The result of asking the shell to run an external command: a launch
/// failure (binary missing, permission denied) is distinct from a process
/// that ran and exited, whatever its status.
pub enum RunResult {
    Launched(CommandOutcome),
    LaunchFailed(String),
}

/// The run launched and the process exited successfully.
pub open spec fn run_success(r: RunResult) -> bool {
    r matches RunResult::Launched(o) && o.success
}

/// The captured standard output of a launched run.
pub open spec fn run_stdout(r: RunResult) -> Seq<char>
    recommends
        r is Launched,
{
    r->Launched_0.stdout@
}

} // verus!
