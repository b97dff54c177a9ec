use hardhat_orchestrator::greet;
use hardhat_orchestrator::outcome::CommandOutcome;
use hardhat_orchestrator::outcome::RunResult;
use hardhat_orchestrator::status::check_status_result;
use hardhat_orchestrator::status::config_js_path;
use hardhat_orchestrator::status::config_ts_path;
use hardhat_orchestrator::status::effective_path;

fn ran(success: bool, stdout: &str, stderr: &str) -> RunResult {
    RunResult::Launched(CommandOutcome {
        success,
        stdout: String::from(stdout),
        stderr: String::from(stderr),
    })
}

#[test]
fn detects_no_project_without_marker_files() {
    let probe = ran(true, "2.22.0\n", "");
    let st = check_status_result(&probe, &Some(String::from("/work/empty")), false, false, false);
    assert!(!st.project_detected);
    assert!(st.project_path.is_none());
}

#[test]
fn detects_project_with_js_marker_and_echoes_path() {
    let probe = ran(true, "2.22.0\n", "");
    let st = check_status_result(&probe, &Some(String::from("/work/proj")), true, false, false);
    assert!(st.project_detected);
    assert_eq!(st.project_path, Some(String::from("/work/proj")));
}

#[test]
fn detects_project_with_ts_marker_alone() {
    let probe = ran(false, "", "");
    let st = check_status_result(&probe, &Some(String::from("/work/proj")), false, true, true);
    assert!(st.project_detected);
    assert_eq!(st.project_path, Some(String::from("/work/proj")));
}

#[test]
fn defaults_to_current_directory_when_no_path_given() {
    let probe = ran(true, "2.22.0\n", "");
    let st = check_status_result(&probe, &None, true, false, false);
    assert_eq!(st.project_path, Some(String::from(".")));
}

#[test]
fn installed_with_trimmed_version_on_successful_probe() {
    let probe = ran(true, "  2.22.0\n", "");
    let st = check_status_result(&probe, &None, false, false, false);
    assert!(st.installed);
    assert_eq!(st.version, Some(String::from("2.22.0")));
}

#[test]
fn version_trim_removes_unicode_whitespace() {
    let probe = ran(true, "\u{a0}\u{2002}2.22.0\u{3000}\r\n", "");
    let st = check_status_result(&probe, &None, false, false, false);
    assert_eq!(st.version, Some(String::from("2.22.0")));
}

#[test]
fn not_installed_on_nonzero_probe_exit() {
    let probe = ran(false, "noise", "boom");
    let st = check_status_result(&probe, &None, false, false, false);
    assert!(!st.installed);
    assert!(st.version.is_none());
}

#[test]
fn not_installed_on_launch_failure() {
    let probe = RunResult::LaunchFailed(String::from("No such file or directory"));
    let st = check_status_result(&probe, &None, false, false, false);
    assert!(!st.installed);
    assert!(st.version.is_none());
}

#[test]
fn network_flag_is_carried_through() {
    let probe = ran(true, "2.22.0", "");
    let up = check_status_result(&probe, &None, false, false, true);
    let down = check_status_result(&probe, &None, false, false, false);
    assert!(up.network_running);
    assert!(!down.network_running);
}

#[test]
fn effective_path_prefers_the_request() {
    assert_eq!(effective_path(&Some(String::from("/a/b"))), "/a/b");
    assert_eq!(effective_path(&None), ".");
}

#[test]
fn marker_file_paths() {
    assert_eq!(config_js_path("/p"), "/p/hardhat.config.js");
    assert_eq!(config_ts_path("/p"), "/p/hardhat.config.ts");
}

#[test]
fn greeting_text() {
    assert_eq!(greet("World"), "Hello, World! You've been greeted from Rust!");
}
