use hardhat_orchestrator::outcome::CommandOutcome;
use hardhat_orchestrator::outcome::RunResult;
use hardhat_orchestrator::provision::ProvisionNext;
use hardhat_orchestrator::provision::ProvisionStage;
use hardhat_orchestrator::provision::after_dir_create;
use hardhat_orchestrator::provision::after_primary_init;
use hardhat_orchestrator::provision::after_quick_start;
use hardhat_orchestrator::provision::after_scaffold;
use hardhat_orchestrator::scaffold::ScaffoldAction;
use hardhat_orchestrator::scaffold::classify_deps_install;
use hardhat_orchestrator::scaffold::example_contract_text;
use hardhat_orchestrator::scaffold::hardhat_config_text;
use hardhat_orchestrator::scaffold::package_json_text;
use hardhat_orchestrator::scaffold::scaffold_failure;
use hardhat_orchestrator::scaffold::scaffold_plan;

fn ran(success: bool, stdout: &str, stderr: &str) -> RunResult {
    RunResult::Launched(CommandOutcome {
        success,
        stdout: String::from(stdout),
        stderr: String::from(stderr),
    })
}

#[test]
fn directory_failure_is_fatal() {
    let r = after_dir_create(&Some(String::from("permission denied")));
    match r {
        ProvisionNext::Finished(Err(e)) => {
            assert_eq!(e, "Failed to create directory: permission denied");
        }
        _ => panic!("expected a fatal result"),
    }
}

#[test]
fn directory_success_moves_to_primary_init() {
    assert!(matches!(
        after_dir_create(&None),
        ProvisionNext::Continue(ProvisionStage::PrimaryInit)
    ));
}

#[test]
fn primary_init_success_ends_with_primary_message() {
    let r = after_primary_init("/p", &ran(true, "", ""));
    match r {
        ProvisionNext::Finished(Ok(m)) => {
            assert_eq!(m, "Hardhat project created successfully at /p");
        }
        _ => panic!("expected success"),
    }
}

#[test]
fn primary_init_launch_failure_is_fatal() {
    let r = after_primary_init("/p", &RunResult::LaunchFailed(String::from("no npx")));
    match r {
        ProvisionNext::Finished(Err(e)) => {
            assert_eq!(e, "Failed to execute hardhat init: no npx");
        }
        _ => panic!("expected a fatal result"),
    }
}

#[test]
fn primary_init_nonzero_exit_moves_to_quick_start() {
    let r = after_primary_init("/p", &ran(false, "", "interactive prompt"));
    assert!(matches!(r, ProvisionNext::Continue(ProvisionStage::QuickStart)));
}

#[test]
fn quick_start_success_ends_with_primary_message() {
    let r = after_quick_start("/p", &ran(true, "", ""));
    match r {
        ProvisionNext::Finished(Ok(m)) => {
            assert_eq!(m, "Hardhat project created successfully at /p");
        }
        _ => panic!("expected success"),
    }
}

#[test]
fn quick_start_any_failure_moves_to_scaffold() {
    assert!(matches!(
        after_quick_start("/p", &ran(false, "", "boom")),
        ProvisionNext::Continue(ProvisionStage::Scaffold)
    ));
    assert!(matches!(
        after_quick_start("/p", &RunResult::LaunchFailed(String::from("gone"))),
        ProvisionNext::Continue(ProvisionStage::Scaffold)
    ));
}

#[test]
fn scaffold_error_is_passed_through() {
    let r = after_scaffold("/p", &Err(String::from("Failed to create package.json: full disk")));
    match r {
        ProvisionNext::Finished(Err(e)) => {
            assert_eq!(e, "Failed to create package.json: full disk");
        }
        _ => panic!("expected a fatal result"),
    }
}

#[test]
fn fallback_chain_ends_in_fallback_message() {
    assert!(matches!(
        after_dir_create(&None),
        ProvisionNext::Continue(ProvisionStage::PrimaryInit)
    ));
    assert!(matches!(
        after_primary_init("/fresh", &ran(false, "", "prompt")),
        ProvisionNext::Continue(ProvisionStage::QuickStart)
    ));
    assert!(matches!(
        after_quick_start("/fresh", &ran(false, "", "prompt")),
        ProvisionNext::Continue(ProvisionStage::Scaffold)
    ));
    let r = after_scaffold("/fresh", &Ok(()));
    match r {
        ProvisionNext::Finished(Ok(m)) => {
            assert_eq!(
                m,
                "Hardhat project created successfully at /fresh (using fallback method)"
            );
            assert!(m.ends_with(" (using fallback method)"));
        }
        _ => panic!("expected success"),
    }
}

#[test]
fn scaffold_plan_lists_the_fixed_files_in_order() {
    let plan = scaffold_plan();
    assert_eq!(plan.len(), 7);
    assert_eq!(plan[0].target, "package.json");
    assert!(matches!(plan[0].action, ScaffoldAction::WriteFile));
    assert_eq!(plan[1].target, "hardhat.config.js");
    assert!(matches!(plan[1].action, ScaffoldAction::WriteFile));
    assert_eq!(plan[2].target, "contracts");
    assert!(matches!(plan[2].action, ScaffoldAction::CreateDir));
    assert_eq!(plan[3].target, "contracts/Lock.sol");
    assert!(matches!(plan[3].action, ScaffoldAction::WriteFile));
    assert_eq!(plan[4].target, "test");
    assert!(matches!(plan[4].action, ScaffoldAction::CreateDir));
    assert_eq!(plan[5].target, "scripts");
    assert!(matches!(plan[5].action, ScaffoldAction::CreateDir));
    assert!(matches!(plan[6].action, ScaffoldAction::InstallDeps));
    assert_eq!(plan[0].contents, package_json_text());
    assert_eq!(plan[1].contents, hardhat_config_text());
    assert_eq!(plan[3].contents, example_contract_text());
}

#[test]
fn scaffold_contents_are_the_fixed_project() {
    assert!(package_json_text().contains("\"name\": \"hardhat-project\""));
    assert!(package_json_text().contains("\"hardhat\": \"^2.22.0\""));
    assert!(hardhat_config_text().contains("url: \"http://127.0.0.1:8545\""));
    assert!(hardhat_config_text().contains("solidity: \"0.8.24\""));
    assert!(example_contract_text().contains("contract Lock {"));
}

#[test]
fn scaffold_step_failure_names_the_step() {
    let plan = scaffold_plan();
    let msg = scaffold_failure(&plan[2], "read-only file system");
    assert_eq!(msg, "Failed to create contracts directory: read-only file system");
}

#[test]
fn dependency_install_failures_are_fatal() {
    let launch = classify_deps_install(&RunResult::LaunchFailed(String::from("no npm")));
    assert_eq!(launch, Err(String::from("Failed to install dependencies: no npm")));
    let nonzero = classify_deps_install(&ran(false, "", "E404"));
    assert_eq!(nonzero, Err(String::from("Failed to install dependencies: E404")));
    assert_eq!(classify_deps_install(&ran(true, "added 120 packages", "")), Ok(()));
}
