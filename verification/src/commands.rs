//! The fixed catalog of external commands the orchestration layer launches,
//! as data: program name, argument list, and environment overrides.  The
//! unverified shell executes them; every choice of what to run is pinned here.

use vstd::prelude::*;
use vstd::string::StringExecFns;

verus! {

/// Seconds the network-reachability probe may wait before giving up.
pub const NETWORK_PROBE_TIMEOUT_SECS: u64 = 2;

/// The well-known local RPC port the toolchain's network listens on.
pub const NETWORK_PORT: u16 = 8545;

/// An external command to launch: program, arguments, and environment
/// overrides, with the project directory as working directory where the
/// caller supplies one.
pub struct Invocation {
    pub program: String,
    pub args: Vec<String>,
    pub env: Vec<(String, String)>,
}

/// The socket address of the local RPC endpoint probed for reachability.
pub fn network_endpoint() -> (r: String)
    ensures
        r@ == "127.0.0.1:8545"@,
{
    String::from_str("127.0.0.1:8545")
}

fn two_args(program: &str, a: &str, b: &str) -> (r: Invocation)
    ensures
        r.program@ == program@,
        r.args@.len() == 2,
        r.args@[0]@ == a@,
        r.args@[1]@ == b@,
        r.env@.len() == 0,
{
    let mut args: Vec<String> = Vec::new();
    args.push(String::from_str(a));
    args.push(String::from_str(b));
    Invocation { program: String::from_str(program), args, env: Vec::new() }
}

/// The version probe: a failed launch or a non-zero exit means the toolchain
/// is simply not installed.
pub fn version_invocation() -> (r: Invocation)
    ensures
        r.program@ == "npx"@,
        r.args@.len() == 2,
        r.args@[0]@ == "hardhat"@,
        r.args@[1]@ == "--version"@,
        r.env@.len() == 0,
{
    two_args("npx", "hardhat", "--version")
}

/// Installs the toolchain globally.
pub fn install_invocation() -> (r: Invocation)
    ensures
        r.program@ == "npm"@,
        r.args@.len() == 3,
        r.args@[0]@ == "install"@,
        r.args@[1]@ == "-g"@,
        r.args@[2]@ == "hardhat"@,
        r.env@.len() == 0,
{
    let mut args: Vec<String> = Vec::new();
    args.push(String::from_str("install"));
    args.push(String::from_str("-g"));
    args.push(String::from_str("hardhat"));
    Invocation { program: String::from_str("npm"), args, env: Vec::new() }
}

/// The toolchain's own interactive initializer, forced non-interactive
/// through environment overrides.
pub fn primary_init_invocation() -> (r: Invocation)
    ensures
        r.program@ == "npx"@,
        r.args@.len() == 2,
        r.args@[0]@ == "hardhat"@,
        r.args@[1]@ == "init"@,
        r.env@.len() == 2,
        r.env@[0].0@ == "CI"@,
        r.env@[0].1@ == "true"@,
        r.env@[1].0@ == "HARDHAT_CREATE_JAVASCRIPT_PROJECT_WITH_DEFAULTS"@,
        r.env@[1].1@ == "true"@,
{
    let mut r = two_args("npx", "hardhat", "init");
    let mut env: Vec<(String, String)> = Vec::new();
    env.push((String::from_str("CI"), String::from_str("true")));
    env.push((
        String::from_str("HARDHAT_CREATE_JAVASCRIPT_PROJECT_WITH_DEFAULTS"),
        String::from_str("true"),
    ));
    r.env = env;
    r
}

/// The alternate quick-start initializer, also forced non-interactive.
pub fn quick_start_invocation() -> (r: Invocation)
    ensures
        r.program@ == "npx"@,
        r.args@.len() == 1,
        r.args@[0]@ == "create-hardhat"@,
        r.env@.len() == 1,
        r.env@[0].0@ == "CI"@,
        r.env@[0].1@ == "true"@,
{
    let mut args: Vec<String> = Vec::new();
    args.push(String::from_str("create-hardhat"));
    let mut env: Vec<(String, String)> = Vec::new();
    env.push((String::from_str("CI"), String::from_str("true")));
    Invocation { program: String::from_str("npx"), args, env }
}

/// Installs a scaffolded project's dependencies.
pub fn deps_install_invocation() -> (r: Invocation)
    ensures
        r.program@ == "npm"@,
        r.args@.len() == 1,
        r.args@[0]@ == "install"@,
        r.env@.len() == 0,
{
    let mut args: Vec<String> = Vec::new();
    args.push(String::from_str("install"));
    Invocation { program: String::from_str("npm"), args, env: Vec::new() }
}

/// Starts the long-lived local network node; the shell must launch it
/// detached and return without waiting.
pub fn node_invocation() -> (r: Invocation)
    ensures
        r.program@ == "npx"@,
        r.args@.len() == 2,
        r.args@[0]@ == "hardhat"@,
        r.args@[1]@ == "node"@,
        r.env@.len() == 0,
{
    two_args("npx", "hardhat", "node")
}

/// Compiles the project's contracts.
pub fn compile_invocation() -> (r: Invocation)
    ensures
        r.program@ == "npx"@,
        r.args@.len() == 2,
        r.args@[0]@ == "hardhat"@,
        r.args@[1]@ == "compile"@,
        r.env@.len() == 0,
{
    two_args("npx", "hardhat", "compile")
}

/// Runs the project's test suite.
pub fn test_invocation() -> (r: Invocation)
    ensures
        r.program@ == "npx"@,
        r.args@.len() == 2,
        r.args@[0]@ == "hardhat"@,
        r.args@[1]@ == "test"@,
        r.env@.len() == 0,
{
    two_args("npx", "hardhat", "test")
}

/// Deploys the selected module against the local network.
pub fn deploy_invocation(deploy_script: &str) -> (r: Invocation)
    ensures
        r.program@ == "npx"@,
        r.args@.len() == 6,
        r.args@[0]@ == "hardhat"@,
        r.args@[1]@ == "ignition"@,
        r.args@[2]@ == "deploy"@,
        r.args@[3]@ == deploy_script@,
        r.args@[4]@ == "--network"@,
        r.args@[5]@ == "localhost"@,
        r.env@.len() == 0,
{
    let mut args: Vec<String> = Vec::new();
    args.push(String::from_str("hardhat"));
    args.push(String::from_str("ignition"));
    args.push(String::from_str("deploy"));
    args.push(String::from_str(deploy_script));
    args.push(String::from_str("--network"));
    args.push(String::from_str("localhost"));
    Invocation { program: String::from_str("npx"), args, env: Vec::new() }
}

/// Runs an arbitrary toolchain task by name, with the caller's arguments
/// appended in order.
pub fn task_invocation(task: &str, task_args: &Vec<String>) -> (r: Invocation)
    ensures
        r.program@ == "npx"@,
        r.args@.len() == 2 + task_args@.len(),
        r.args@[0]@ == "hardhat"@,
        r.args@[1]@ == task@,
        forall|i: int| 0 <= i < task_args@.len() ==> r.args@[2 + i]@ == #[trigger] task_args@[i]@,
        r.env@.len() == 0,
{
    let mut args: Vec<String> = Vec::new();
    args.push(String::from_str("hardhat"));
    args.push(String::from_str(task));
    let n = task_args.len();
    let mut i: usize = 0;
    while i < n
        invariant
            i <= n,
            n == task_args@.len(),
            args@.len() == 2 + i,
            args@[0]@ == "hardhat"@,
            args@[1]@ == task@,
            forall|k: int| 0 <= k < i ==> args@[2 + k]@ == #[trigger] task_args@[k]@,
        decreases n - i,
    {
        args.push(task_args[i].clone());
        i = i + 1;
    }
    Invocation { program: String::from_str("npx"), args, env: Vec::new() }
}

/// Runs the generated console driver script against the local network.
pub fn console_invocation(script_name: &str) -> (r: Invocation)
    ensures
        r.program@ == "npx"@,
        r.args@.len() == 5,
        r.args@[0]@ == "hardhat"@,
        r.args@[1]@ == "run"@,
        r.args@[2]@ == script_name@,
        r.args@[3]@ == "--network"@,
        r.args@[4]@ == "localhost"@,
        r.env@.len() == 0,
{
    let mut args: Vec<String> = Vec::new();
    args.push(String::from_str("hardhat"));
    args.push(String::from_str("run"));
    args.push(String::from_str(script_name));
    args.push(String::from_str("--network"));
    args.push(String::from_str("localhost"));
    Invocation { program: String::from_str("npx"), args, env: Vec::new() }
}

} // verus!
