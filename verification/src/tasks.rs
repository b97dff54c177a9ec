//! Task executor: turns the result of each launched subcommand into the
//! caller-visible message, keeping the error taxonomy apart — a launch
//! failure, a process that ran and exited non-zero, and success each get
//! their own exactly-pinned text.  Diagnostic standard output is never
//! discarded on failure: it may hold partial output useful for debugging.

use vstd::prelude::*;
use vstd::string::StringExecFns;

use crate::outcome::RunResult;
use crate::strutil::concat2;
use crate::strutil::concat4;

verus! {

/// The view of a caller-visible result: message text on either side.
pub open spec fn result_view(r: Result<String, String>) -> Result<Seq<char>, Seq<char>> {
    match r {
        Ok(s) => Ok(s@),
        Err(e) => Err(e@),
    }
}

/// The message owed for a compile run.
pub open spec fn compile_message(r: RunResult) -> Result<Seq<char>, Seq<char>> {
    match r {
        RunResult::LaunchFailed(e) => Err("Failed to execute hardhat compile: "@ + e@),
        RunResult::Launched(o) => if o.success {
            Ok("Compilation successful!\n"@ + o.stdout@)
        } else {
            Err("Compilation failed: "@ + o.stderr@ + "\n"@ + o.stdout@)
        },
    }
}

/// Classifies a compile run.
pub fn classify_compile(r: &RunResult) -> (out: Result<String, String>)
    ensures
        result_view(out) == compile_message(*r),
{
    match r {
        RunResult::LaunchFailed(e) => Err(concat2("Failed to execute hardhat compile: ", e.as_str())),
        RunResult::Launched(o) => if o.success {
            Ok(concat2("Compilation successful!\n", o.stdout.as_str()))
        } else {
            Err(concat4("Compilation failed: ", o.stderr.as_str(), "\n", o.stdout.as_str()))
        },
    }
}

/// The message owed for a test run.
pub open spec fn test_message(r: RunResult) -> Result<Seq<char>, Seq<char>> {
    match r {
        RunResult::LaunchFailed(e) => Err("Failed to execute hardhat test: "@ + e@),
        RunResult::Launched(o) => if o.success {
            Ok("Tests completed!\n"@ + o.stdout@)
        } else {
            Err("Tests failed: "@ + o.stderr@ + "\n"@ + o.stdout@)
        },
    }
}

/// Classifies a test run.
pub fn classify_test(r: &RunResult) -> (out: Result<String, String>)
    ensures
        result_view(out) == test_message(*r),
{
    match r {
        RunResult::LaunchFailed(e) => Err(concat2("Failed to execute hardhat test: ", e.as_str())),
        RunResult::Launched(o) => if o.success {
            Ok(concat2("Tests completed!\n", o.stdout.as_str()))
        } else {
            Err(concat4("Tests failed: ", o.stderr.as_str(), "\n", o.stdout.as_str()))
        },
    }
}

/// The message owed for a deployment run.
pub open spec fn deploy_message(r: RunResult) -> Result<Seq<char>, Seq<char>> {
    match r {
        RunResult::LaunchFailed(e) => Err("Failed to execute deployment: "@ + e@),
        RunResult::Launched(o) => if o.success {
            Ok("Deployment successful!\n"@ + o.stdout@)
        } else {
            Err("Deployment failed: "@ + o.stderr@ + "\n"@ + o.stdout@)
        },
    }
}

/// Classifies a deployment run.
pub fn classify_deploy(r: &RunResult) -> (out: Result<String, String>)
    ensures
        result_view(out) == deploy_message(*r),
{
    match r {
        RunResult::LaunchFailed(e) => Err(concat2("Failed to execute deployment: ", e.as_str())),
        RunResult::Launched(o) => if o.success {
            Ok(concat2("Deployment successful!\n", o.stdout.as_str()))
        } else {
            Err(concat4("Deployment failed: ", o.stderr.as_str(), "\n", o.stdout.as_str()))
        },
    }
}

/// The message owed for a named task run: plain captured output on success.
pub open spec fn task_message(r: RunResult) -> Result<Seq<char>, Seq<char>> {
    match r {
        RunResult::LaunchFailed(e) => Err("Failed to execute hardhat task: "@ + e@),
        RunResult::Launched(o) => if o.success {
            Ok(o.stdout@)
        } else {
            Err("Task failed: "@ + o.stderr@ + "\n"@ + o.stdout@)
        },
    }
}

/// Classifies a named task run.
pub fn classify_task(r: &RunResult) -> (out: Result<String, String>)
    ensures
        result_view(out) == task_message(*r),
{
    match r {
        RunResult::LaunchFailed(e) => Err(concat2("Failed to execute hardhat task: ", e.as_str())),
        RunResult::Launched(o) => if o.success {
            Ok(o.stdout.clone())
        } else {
            Err(concat4("Task failed: ", o.stderr.as_str(), "\n", o.stdout.as_str()))
        },
    }
}

/// The message owed for a console-script run.
pub open spec fn console_message(r: RunResult) -> Result<Seq<char>, Seq<char>> {
    match r {
        RunResult::LaunchFailed(e) => Err("Failed to execute console command: "@ + e@),
        RunResult::Launched(o) => if o.success {
            Ok(o.stdout@)
        } else {
            Err("Console command failed: "@ + o.stderr@ + "\n"@ + o.stdout@)
        },
    }
}

/// Classifies a console-script run.
pub fn classify_console(r: &RunResult) -> (out: Result<String, String>)
    ensures
        result_view(out) == console_message(*r),
{
    match r {
        RunResult::LaunchFailed(e) => Err(
            concat2("Failed to execute console command: ", e.as_str()),
        ),
        RunResult::Launched(o) => if o.success {
            Ok(o.stdout.clone())
        } else {
            Err(concat4("Console command failed: ", o.stderr.as_str(), "\n", o.stdout.as_str()))
        },
    }
}

/// The message owed for a global toolchain installation run.
pub open spec fn install_message(r: RunResult) -> Result<Seq<char>, Seq<char>> {
    match r {
        RunResult::LaunchFailed(e) => Err("Failed to execute npm: "@ + e@),
        RunResult::Launched(o) => if o.success {
            Ok("Hardhat installed successfully!"@)
        } else {
            Err("Failed to install Hardhat: "@ + o.stderr@)
        },
    }
}

/// Classifies a global installation run.
pub fn classify_install(r: &RunResult) -> (out: Result<String, String>)
    ensures
        result_view(out) == install_message(*r),
{
    match r {
        RunResult::LaunchFailed(e) => Err(concat2("Failed to execute npm: ", e.as_str())),
        RunResult::Launched(o) => if o.success {
            Ok(String::from_str("Hardhat installed successfully!"))
        } else {
            Err(concat2("Failed to install Hardhat: ", o.stderr.as_str()))
        },
    }
}

/// The message owed for a detached network launch: only the launch itself can
/// fail, since the node is left running.
pub open spec fn network_start_message(spawn_error: Option<String>) -> Result<
    Seq<char>,
    Seq<char>,
> {
    match spawn_error {
        None => Ok("Hardhat network started successfully!"@),
        Some(e) => Err("Failed to start Hardhat network: "@ + e@),
    }
}

/// Classifies a detached network launch.
pub fn classify_network_start(spawn_error: &Option<String>) -> (out: Result<String, String>)
    ensures
        result_view(out) == network_start_message(*spawn_error),
{
    match spawn_error {
        None => Ok(String::from_str("Hardhat network started successfully!")),
        Some(e) => Err(concat2("Failed to start Hardhat network: ", e.as_str())),
    }
}

} // verus!
