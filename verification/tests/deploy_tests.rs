use hardhat_orchestrator::commands::deploy_invocation;
use hardhat_orchestrator::deploy::is_module_file;
use hardhat_orchestrator::deploy::module_file_path;
use hardhat_orchestrator::deploy::modules_dir_path;
use hardhat_orchestrator::deploy::select_deploy_module;

#[test]
fn missing_modules_directory_is_a_precondition_error() {
    let r = select_deploy_module(false, &vec![String::from("Deploy.js")]);
    assert_eq!(
        r,
        Err(String::from(
            "No Hardhat Ignition modules found. Please create deployment scripts in ignition/modules/"
        ))
    );
}

#[test]
fn directory_without_matching_file_is_a_distinct_error() {
    let entries = vec![String::from("README.md"), String::from("notes.txt")];
    let r = select_deploy_module(true, &entries);
    assert_eq!(
        r,
        Err(String::from("No deployment modules found in ignition/modules/"))
    );
}

#[test]
fn first_matching_entry_in_given_order_is_selected() {
    let entries = vec![
        String::from("README.md"),
        String::from("Deploy.js"),
        String::from("Other.ts"),
    ];
    let r = select_deploy_module(true, &entries);
    assert_eq!(r, Ok(String::from("Deploy.js")));
}

#[test]
fn typescript_modules_are_recognized_too() {
    let entries = vec![String::from("Deploy.ts")];
    assert_eq!(select_deploy_module(true, &entries), Ok(String::from("Deploy.ts")));
}

#[test]
fn module_file_recognition() {
    assert!(is_module_file("Deploy.js"));
    assert!(is_module_file("Deploy.ts"));
    assert!(!is_module_file(".js"));
    assert!(!is_module_file(".ts"));
    assert!(!is_module_file("Deploy.sol"));
    assert!(!is_module_file("js"));
}

#[test]
fn module_paths() {
    assert_eq!(modules_dir_path("/p"), "/p/ignition/modules");
    assert_eq!(module_file_path("/p", "Deploy.js"), "/p/ignition/modules/Deploy.js");
}

#[test]
fn deploy_invocation_targets_the_local_network() {
    let inv = deploy_invocation("/p/ignition/modules/Deploy.js");
    assert_eq!(inv.program, "npx");
    assert_eq!(
        inv.args,
        vec![
            String::from("hardhat"),
            String::from("ignition"),
            String::from("deploy"),
            String::from("/p/ignition/modules/Deploy.js"),
            String::from("--network"),
            String::from("localhost"),
        ]
    );
    assert!(inv.env.is_empty());
}
