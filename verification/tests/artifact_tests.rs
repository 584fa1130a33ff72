use contract_verify::artifact::{
    artifact_source_file, locate_artifact, Abi, ArtifactRecord, ContractQuery,
};
use contract_verify::errors::VerifyError;

fn record(qualified_name: &str) -> ArtifactRecord {
    ArtifactRecord {
        qualified_name: qualified_name.to_string(),
        abi: Some(Abi { constructor: None }),
        bytecode: Some("6080".to_string()),
    }
}

#[test]
fn name_lookup_finds_the_single_artifact() {
    let artifacts = vec![record("a.sol:Greeter"), record("b.sol:Token"), record("c.sol:Vault")];
    let q = ContractQuery::ByName { name: "Token".to_string() };
    assert_eq!(locate_artifact(&q, &artifacts).unwrap(), 1);
}

#[test]
fn name_lookup_fails_on_two_matches() {
    let artifacts = vec![record("a.sol:Token"), record("b.sol:Token")];
    let q = ContractQuery::ByName { name: "Token".to_string() };
    assert!(matches!(locate_artifact(&q, &artifacts), Err(VerifyError::AmbiguousArtifact)));
}

#[test]
fn name_lookup_fails_on_zero_matches() {
    let artifacts = vec![record("a.sol:Greeter")];
    let q = ContractQuery::ByName { name: "Token".to_string() };
    assert!(matches!(locate_artifact(&q, &artifacts), Err(VerifyError::ArtifactNotFound)));
}

#[test]
fn path_lookup_finds_the_single_artifact() {
    let artifacts = vec![record("a.sol:Token"), record("b.sol:Token")];
    let q = ContractQuery::ByPathAndName { path: "b.sol".to_string(), name: "Token".to_string() };
    assert_eq!(locate_artifact(&q, &artifacts).unwrap(), 1);
}

#[test]
fn path_lookup_reports_duplicate_in_one_file() {
    let artifacts = vec![record("a.sol:Token"), record("a.sol:Token")];
    let q = ContractQuery::ByPathAndName { path: "a.sol".to_string(), name: "Token".to_string() };
    assert!(matches!(
        locate_artifact(&q, &artifacts),
        Err(VerifyError::DuplicateContractInFile)
    ));
}

#[test]
fn path_lookup_ignores_same_name_in_other_files() {
    let artifacts = vec![record("a.sol:Token"), record("b.sol:Token")];
    let q = ContractQuery::ByPathAndName { path: "a.sol".to_string(), name: "Token".to_string() };
    assert_eq!(locate_artifact(&q, &artifacts).unwrap(), 0);
}

#[test]
fn missing_abi_is_reported_with_the_contract_name() {
    let mut a = record("a.sol:Token");
    a.abi = None;
    let q = ContractQuery::ByName { name: "Token".to_string() };
    match locate_artifact(&q, &vec![a]) {
        Err(VerifyError::MissingAbi(name)) => assert_eq!(name, "Token"),
        other => panic!("expected MissingAbi, got {:?}", other.is_ok()),
    }
}

#[test]
fn missing_bytecode_is_reported_with_the_contract_name() {
    let mut a = record("a.sol:Token");
    a.bytecode = None;
    let q = ContractQuery::ByName { name: "Token".to_string() };
    match locate_artifact(&q, &vec![a]) {
        Err(VerifyError::MissingBytecode(name)) => assert_eq!(name, "Token"),
        other => panic!("expected MissingBytecode, got {:?}", other.is_ok()),
    }
}

#[test]
fn empty_artifact_set_has_no_match() {
    let artifacts: Vec<ArtifactRecord> = vec![];
    let q = ContractQuery::ByName { name: "Token".to_string() };
    assert!(matches!(locate_artifact(&q, &artifacts), Err(VerifyError::ArtifactNotFound)));
}

#[test]
fn unqualified_names_match_nothing() {
    let artifacts = vec![record("Token")];
    let q = ContractQuery::ByName { name: "Token".to_string() };
    assert!(matches!(locate_artifact(&q, &artifacts), Err(VerifyError::ArtifactNotFound)));
}

#[test]
fn source_file_component_is_extracted() {
    let a = record("contracts/a.sol:Token");
    assert_eq!(artifact_source_file(&a).unwrap(), "contracts/a.sol");
    let bare = record("Token");
    assert!(artifact_source_file(&bare).is_none());
}
