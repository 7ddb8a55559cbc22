use csx::cmc::try_cmc;
use csx::ic_api::{canister_url, should_retry};
use csx::types::{ComponentType, Network, SdkEnv};

#[test]
fn component_type_names_and_order() {
    let all = ComponentType::all();
    assert_eq!(
        all.iter().map(|t| t.to_string()).collect::<Vec<String>>(),
        vec![
            "event_indexer",
            "algorithm_indexer",
            "snapshot_indexer_icp",
            "snapshot_indexer_evm",
            "relayer",
            "algorithm_lens",
            "snapshot_indexer_https"
        ]
    );
}

#[test]
fn network_urls_and_envs() {
    assert_eq!(Network::Local.to_url(None), "http://localhost:4943");
    assert_eq!(Network::Local.to_url(Some(8000)), "http://localhost:8000");
    assert_eq!(Network::IC.to_url(Some(8000)), "https://ic0.app/");
    assert_eq!(Network::Local.to_sdk_env(), SdkEnv::LocalDevelopment);
    assert_eq!(Network::IC.to_sdk_env(), SdkEnv::Production);
}

#[test]
fn cycles_minting_canister() {
    let s = try_cmc().unwrap();
    assert_eq!(s.0.to_text(), "rkp4c-7iaaa-aaaaa-aaaca-cai");
}

#[test]
fn dashboard_api() {
    assert_eq!(
        canister_url("klzmf-pqaaa-aaaao-a3taa-cai"),
        "https://ic-api.internetcomputer.org/api/v3/canisters/klzmf-pqaaa-aaaao-a3taa-cai"
    );
    assert!(should_retry(0, None));
    assert!(should_retry(2, None));
    assert!(!should_retry(3, None));
    assert!(!should_retry(0, Some(0)));
    assert!(should_retry(4, Some(5)));
}
