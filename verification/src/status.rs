//! Environment probe: assembles the point-in-time toolchain snapshot from a
//! version-probe run, the two recognized project marker files, and the
//! network-reachability answer.  Absence of the tool, of a project, or of the
//! network is a normal state encoded in fields, never an error.

use vstd::prelude::*;
use vstd::string::StringExecFns;

use crate::outcome::RunResult;
use crate::outcome::run_stdout;
use crate::outcome::run_success;
use crate::strutil::concat2;
use crate::strutil::str_trim;
use crate::strutil::trimmed;

verus! {

/// A point-in-time snapshot of the toolchain's availability, constructed
/// fresh on every probe and never persisted.
pub struct HardhatStatus {
    pub installed: bool,
    pub version: Option<String>,
    pub project_detected: bool,
    pub project_path: Option<String>,
    pub network_running: bool,
}

/// The directory a probe inspects: the caller's path, or the current
/// directory when none was given.
pub open spec fn effective_path_view(requested: Option<String>) -> Seq<char> {
    match requested {
        Some(p) => p@,
        None => "."@,
    }
}

/// Resolves the directory a probe inspects.
pub fn effective_path(requested: &Option<String>) -> (r: String)
    ensures
        r@ == effective_path_view(*requested),
{
    match requested {
        Some(p) => p.clone(),
        None => String::from_str("."),
    }
}

/// The path of the first recognized marker file directly inside `dir`.
pub fn config_js_path(dir: &str) -> (r: String)
    ensures
        r@ == dir@ + "/hardhat.config.js"@,
{
    concat2(dir, "/hardhat.config.js")
}

/// The path of the second recognized marker file directly inside `dir`.
pub fn config_ts_path(dir: &str) -> (r: String)
    ensures
        r@ == dir@ + "/hardhat.config.ts"@,
{
    concat2(dir, "/hardhat.config.ts")
}

/// Assembles the snapshot.  A project is detected iff one of the two marker
/// files exists directly inside the effective path, and only then does the
/// snapshot echo that path; the toolchain is installed iff the version probe
/// launched and exited successfully, and only then is its trimmed output
/// reported as the version.
pub fn check_status_result(
    version_probe: &RunResult,
    requested: &Option<String>,
    config_js_exists: bool,
    config_ts_exists: bool,
    network_reachable: bool,
) -> (st: HardhatStatus)
    ensures
        st.installed == run_success(*version_probe),
        run_success(*version_probe) ==> (st.version matches Some(v) && v@ == trimmed(
            run_stdout(*version_probe),
        )),
        !run_success(*version_probe) ==> st.version is None,
        st.project_detected == (config_js_exists || config_ts_exists),
        (config_js_exists || config_ts_exists) ==> (st.project_path matches Some(p) && p@
            == effective_path_view(*requested)),
        !(config_js_exists || config_ts_exists) ==> st.project_path is None,
        st.network_running == network_reachable,
{
    let installed: bool;
    let version: Option<String>;
    match version_probe {
        RunResult::Launched(o) => {
            if o.success {
                installed = true;
                version = Some(str_trim(o.stdout.as_str()));
            } else {
                installed = false;
                version = None;
            }
        },
        RunResult::LaunchFailed(_) => {
            installed = false;
            version = None;
        },
    }
    let detected = config_js_exists || config_ts_exists;
    let project_path: Option<String> = if detected {
        Some(effective_path(requested))
    } else {
        None
    };
    HardhatStatus { installed, version, project_detected: detected, project_path, network_running: network_reachable }
}

} // verus!
