use hardhat_orchestrator::contracts::SourceProbe;
use hardhat_orchestrator::contracts::artifact_path;
use hardhat_orchestrator::contracts::contracts_from_probes;
use hardhat_orchestrator::contracts::debug_artifact_path;
use hardhat_orchestrator::contracts::is_source_file;
use hardhat_orchestrator::contracts::make_contract_record;
use hardhat_orchestrator::contracts::source_file_stem;
use hardhat_orchestrator::contracts::source_path;

#[test]
fn recognizes_source_files_by_extension() {
    assert!(is_source_file("Lock.sol"));
    assert!(is_source_file("a.sol"));
    assert!(is_source_file("My.Token.sol"));
    assert!(!is_source_file("Lock.txt"));
    assert!(!is_source_file("Lock.SOL"));
    assert!(!is_source_file(".sol"));
    assert!(!is_source_file("sol"));
    assert!(!is_source_file(""));
}

#[test]
fn stem_drops_the_extension() {
    assert_eq!(source_file_stem("Lock.sol"), "Lock");
    assert_eq!(source_file_stem("My.Token.sol"), "My.Token");
}

#[test]
fn derived_artifact_paths() {
    assert_eq!(
        artifact_path("/p", "Lock.sol"),
        "/p/artifacts/contracts/Lock.sol/Lock.json"
    );
    assert_eq!(
        debug_artifact_path("/p", "Lock.sol"),
        "/p/artifacts/contracts/Lock.sol/Lock.dbg.json"
    );
    assert_eq!(source_path("/p", "Lock.sol"), "/p/contracts/Lock.sol");
}

#[test]
fn one_source_without_artifacts_is_not_compiled() {
    let probes = vec![SourceProbe {
        file_name: String::from("Lock.sol"),
        size: Some(420),
        artifact_exists: false,
        debug_artifact_exists: false,
    }];
    let recs = contracts_from_probes("/p", &probes);
    assert_eq!(recs.len(), 1);
    assert_eq!(recs[0].name, "Lock");
    assert_eq!(recs[0].path, "/p/contracts/Lock.sol");
    assert!(!recs[0].compiled);
    assert_eq!(recs[0].size, Some(420));
}

#[test]
fn one_source_with_matching_artifact_is_compiled() {
    let probe = SourceProbe {
        file_name: String::from("Lock.sol"),
        size: None,
        artifact_exists: true,
        debug_artifact_exists: false,
    };
    let rec = make_contract_record("/p", &probe);
    assert!(rec.compiled);
    assert_eq!(rec.name, "Lock");
}

#[test]
fn debug_artifact_alone_counts_as_compiled() {
    let probe = SourceProbe {
        file_name: String::from("Lock.sol"),
        size: None,
        artifact_exists: false,
        debug_artifact_exists: true,
    };
    let rec = make_contract_record("/p", &probe);
    assert!(rec.compiled);
}

#[test]
fn records_keep_enumeration_order() {
    let probes = vec![
        SourceProbe {
            file_name: String::from("B.sol"),
            size: None,
            artifact_exists: true,
            debug_artifact_exists: false,
        },
        SourceProbe {
            file_name: String::from("A.sol"),
            size: Some(7),
            artifact_exists: false,
            debug_artifact_exists: false,
        },
    ];
    let recs = contracts_from_probes("/p", &probes);
    assert_eq!(recs.len(), 2);
    assert_eq!(recs[0].name, "B");
    assert!(recs[0].compiled);
    assert_eq!(recs[1].name, "A");
    assert!(!recs[1].compiled);
}
