use soroban_cost_lints::paths::{
    match_soroban_def_path, matches_any_path, soroban_env_host_methods, soroban_host_types,
    soroban_storage_types,
};

#[test]
fn matches_the_full_path() {
    assert!(match_soroban_def_path("soroban_sdk::Env", &["soroban_sdk", "Env"]));
    assert!(match_soroban_def_path(
        "soroban_sdk::storage::Storage",
        &["soroban_sdk", "storage", "Storage"]
    ));
}

#[test]
fn matches_behind_other_segments() {
    assert!(match_soroban_def_path("crate::soroban_sdk::Env", &["soroban_sdk", "Env"]));
    assert!(match_soroban_def_path("::soroban_sdk::Env", &["soroban_sdk", "Env"]));
    assert!(match_soroban_def_path("soroban_env_host::host::Host", &["host", "Host"]));
    assert!(match_soroban_def_path("é::host::Host", &["host", "Host"]));
}

#[test]
fn matches_whole_segments_only() {
    assert!(!match_soroban_def_path("my_soroban_sdk::Env", &["soroban_sdk", "Env"]));
    assert!(!match_soroban_def_path("a::my_soroban_sdk::Env", &["soroban_sdk", "Env"]));
    assert!(!match_soroban_def_path(":soroban_sdk::Env", &["soroban_sdk", "Env"]));
    assert!(!match_soroban_def_path("ghost::Host", &["host", "Host"]));
    assert!(!match_soroban_def_path("éhost::Host", &["host", "Host"]));
}

#[test]
fn rejects_other_paths() {
    assert!(!match_soroban_def_path("soroban_sdk::env::Env", &["soroban_sdk", "Env"]));
    assert!(!match_soroban_def_path("soroban_sdk::Env2", &["soroban_sdk", "Env"]));
    assert!(!match_soroban_def_path("Env", &["soroban_sdk", "Env"]));
    assert!(!match_soroban_def_path("", &["soroban_sdk", "Env"]));
    assert!(!match_soroban_def_path("soroban_sdk.Env", &["soroban_sdk", "Env"]));
}

#[test]
fn few_segments() {
    assert!(match_soroban_def_path("anything", &[]));
    assert!(match_soroban_def_path("", &[]));
    assert!(match_soroban_def_path("a::b", &["b"]));
    assert!(match_soroban_def_path("b", &["b"]));
    assert!(!match_soroban_def_path("ab", &["b"]));
    assert!(!match_soroban_def_path("a", &["b"]));
}

#[test]
fn any_of_the_tables() {
    for name in ["Storage", "Instance", "Persistent", "Temporary"] {
        let full = format!("soroban_sdk::storage::{name}");
        assert!(matches_any_path(&full, soroban_storage_types()), "{full}");
        assert!(!matches_any_path(&full, soroban_host_types()), "{full}");
    }
    for rest in [
        "ledger::Ledger",
        "crypto::Crypto",
        "crypto::CryptoHazmat",
        "crypto::bls12_381::Bls12_381",
        "crypto::bn254::Bn254",
        "prng::Prng",
        "events::Events",
        "deploy::Deployer",
        "deploy::DeployerWithAddress",
        "deploy::DeployerWithAsset",
    ] {
        let full = format!("soroban_sdk::{rest}");
        assert!(matches_any_path(&full, soroban_host_types()), "{full}");
        assert!(!matches_any_path(&full, soroban_storage_types()), "{full}");
    }
    for full in ["soroban_sdk::Env", "host::Host", "alloc::vec::Vec"] {
        assert!(!matches_any_path(full, soroban_host_types()), "{full}");
        assert!(!matches_any_path(full, soroban_storage_types()), "{full}");
    }
    assert!(!matches_any_path("soroban_sdk::Env", &[]));
}

#[test]
fn the_tables_hold_their_entries() {
    assert_eq!(soroban_storage_types().len(), 4);
    assert_eq!(soroban_storage_types()[2], &["soroban_sdk", "storage", "Persistent"]);
    assert_eq!(soroban_host_types().len(), 10);
    assert_eq!(soroban_host_types()[3], &["soroban_sdk", "crypto", "bls12_381", "Bls12_381"]);
    assert_eq!(soroban_env_host_methods(), &["current_contract_address"]);
}
