use csx::algorithm_indexer::{
    validate_manifest as validate_algorithm_indexer, AlgorithmIndexerComponentManifest, AlgorithmIndexerDatasource,
    AlgorithmIndexerOutput, AlgorithmInputType, AlgorithmOutputType,
};
use csx::common::{AttributeValue, DatasourceForCanister, LensTargets, SourceType};
use csx::component_ids::ComponentIdsManager;
use csx::dfx::DfxWrapperNetwork;
use csx::event_indexer::{validate_manifest as validate_event_indexer, EventIndexerComponentManifest, EventIndexerDatasource};
use csx::snapshot_indexer_evm::{
    validate_manifest as validate_evm, SnapshotIndexerEVMComponentManifest, SnapshotIndexerEVMDatasource,
};
use csx::snapshot_indexer_icp::{
    generate_component_setup_args, try_generate_component_setup_args, validate_manifest as validate_icp,
    SnapshotIndexerICPComponentManifest,
};
use csx::types::ComponentType;

#[test]
fn event_indexer_manifest() {
    let m = EventIndexerComponentManifest::new("sample_event_indexer", "Sample Event Indexer", "Description", "v1", EventIndexerDatasource::default(), 3600);
    assert_eq!(m.component_type(), ComponentType::EventIndexer);
    assert_eq!(m.required_interface(), Some("ERC20.json".to_string()));
    assert_eq!(m.custom_tags(), vec![("chainsight:intervalSec".to_string(), "3600".to_string())]);
    let s = m.get_sources();
    assert_eq!(s.source_type, SourceType::Evm);
    assert_eq!(s.source, "0x6B175474E89094C44Da98b954EedeAC495271d0F");
    assert_eq!(s.attributes[0].0, "chain_id");
    assert!(matches!(s.attributes[0].1, AttributeValue::Number(1)));
    assert!(matches!(&s.attributes[1].1, AttributeValue::Text(t) if t == "Transfer"));
    assert!(matches!(&s.attributes[2].1, AttributeValue::Text(t) if t == "ERC-20"));
    let mut m2 = m.clone();
    m2.datasource.contract_type = None;
    assert!(matches!(&m2.get_sources().attributes[2].1, AttributeValue::Text(t) if t == "ERC20"));
    assert!(validate_event_indexer(&m).is_ok());
    m2.datasource.event.interface = Some("x.json".to_string());
    assert!(matches!(&m2.get_sources().attributes[2].1, AttributeValue::Text(t) if t == "x"));
    m2.datasource.event.interface = None;
    assert_eq!(validate_event_indexer(&m2).unwrap_err(), "datasource.event.interface is not set");
    m2.metadata.type_ = ComponentType::Relayer;
    assert_eq!(validate_event_indexer(&m2).unwrap_err(), "type is not EventIndexer");
}

#[test]
fn snapshot_indexer_evm_manifest() {
    let m = SnapshotIndexerEVMComponentManifest::new("sample_snapshot_indexer_evm", "L", "Description", "v1", SnapshotIndexerEVMDatasource::default(), 3600);
    assert_eq!(m.component_type(), ComponentType::SnapshotIndexerEVM);
    assert_eq!(m.metadata.tags, Some(vec!["ERC-20".to_string(), "Ethereum".to_string(), "DAI".to_string()]));
    assert_eq!(m.required_interface(), Some("ERC20.json".to_string()));
    let s = m.get_sources();
    assert_eq!(s.source, "6b175474e89094c44da98b954eedeac495271d0f");
    assert!(matches!(&s.attributes[0].1, AttributeValue::Text(t) if t == "totalSupply"));
    assert_eq!(m.timer_settings().unwrap().interval_sec, 3600);
    let mut bad = m.clone();
    bad.datasource.location.args.rpc_url = "http://example.com".to_string();
    assert_eq!(validate_evm(&bad).unwrap_err(), "Only HTTPS is acceptable for RPC URL, but got: http");
    bad.datasource.location.args.rpc_url = "https://[2001:db8::1]/".to_string();
    assert!(validate_evm(&bad).is_ok());
    bad.metadata.type_ = ComponentType::EventIndexer;
    assert_eq!(validate_evm(&bad).unwrap_err(), "type is not SnapshotIndexerEVM");
    let (id, web3) = csx::snapshot_indexer_evm::generate_component_setup_args(&m, &csx::types::Network::IC);
    assert_eq!(id, "6b175474e89094c44da98b954eedeac495271d0f");
    assert_eq!(web3.url, "https://mainnet.infura.io/v3/${INFURA_MAINNET_RPC_URL_KEY}");
    assert_eq!(web3.chain_id, 1);
    assert_eq!(web3.env, csx::types::SdkEnv::Production);
}

fn sample_icp() -> SnapshotIndexerICPComponentManifest {
    let mut d = DatasourceForCanister::default();
    d.location.id = "datasource_canister_id".to_string();
    SnapshotIndexerICPComponentManifest::new("sample_snapshot_indexer_icp", "L", "Description", "v1", d, 3600)
}

#[test]
fn snapshot_indexer_icp_manifest() {
    let mut m = sample_icp();
    assert_eq!(m.component_type(), ComponentType::SnapshotIndexerICP);
    assert_eq!(m.required_interface(), None);
    let s = m.get_sources();
    assert_eq!(s.source, "datasource_canister_id");
    assert_eq!(s.attributes.len(), 1);
    assert!(matches!(&s.attributes[0].1, AttributeValue::Text(t) if t == "get_last_snapshot"));
    m.lens_targets = Some(LensTargets { identifiers: vec!["t1".to_string()] });
    let s = m.get_sources();
    assert_eq!(s.attributes.len(), 2);
    assert_eq!(s.attributes[0].0, "sources");
    assert_eq!(s.attributes[1].0, "function_name");
    assert!(validate_icp(&m).is_ok());
    m.metadata.type_ = ComponentType::Relayer;
    assert_eq!(validate_icp(&m).unwrap_err(), "type is not SnapshotIndexerICP");
}

#[test]
fn snapshot_indexer_icp_setup_args() {
    let mut ids = ComponentIdsManager::new(&DfxWrapperNetwork::IC);
    ids.add("datasource_canister_id".to_string(), "rrkah-fqaaa-aaaaa-aaaaq-cai".to_string());
    let mut m = sample_icp();
    let args = generate_component_setup_args(&m, &ids).unwrap();
    assert_eq!(args, candid::encode_one("rrkah-fqaaa-aaaaa-aaaaq-cai").unwrap());
    m.lens_targets = Some(LensTargets { identifiers: vec!["ryjl3-tyaaa-aaaaa-aaaba-cai".to_string()] });
    let args = try_generate_component_setup_args(&m, &ids).unwrap().unwrap();
    assert_eq!(
        args,
        candid::encode_args(("rrkah-fqaaa-aaaaa-aaaaq-cai", vec!["ryjl3-tyaaa-aaaaa-aaaba-cai".to_string()])).unwrap()
    );
    m.lens_targets = Some(LensTargets { identifiers: vec!["unknown_lens".to_string()] });
    assert_eq!(try_generate_component_setup_args(&m, &ids).unwrap_err(), "Failed to get canister id for unknown_lens");
    let empty = ComponentIdsManager::new(&DfxWrapperNetwork::IC);
    assert_eq!(try_generate_component_setup_args(&m, &empty).unwrap_err(), "Failed to get canister id for datasource_canister_id");
}

#[test]
fn algorithm_indexer_manifest() {
    let m = AlgorithmIndexerComponentManifest::new(
        "sample_algorithm_indexer",
        "Sample Algorithm Indexer",
        "Description",
        "v1",
        AlgorithmIndexerDatasource::default(),
        vec![AlgorithmIndexerOutput::default()],
        3600,
    );
    assert_eq!(m.datasource.source_type, AlgorithmInputType::EventIndexer);
    assert_eq!(m.datasource.input.fields.len(), 3);
    assert_eq!(m.output[0].output_type, AlgorithmOutputType::KeyValue);
    assert_eq!(m.get_sources().source, "be2us-64aaa-aaaaa-qaabq-cai");
    assert_eq!(m.custom_tags(), vec![("chainsight:intervalSec".to_string(), "3600".to_string())]);
    assert!(validate_algorithm_indexer(&m).is_ok());
    let ids = ComponentIdsManager::new(&DfxWrapperNetwork::IC);
    assert_eq!(csx::algorithm_indexer::try_setup_source_canister(&m, &ids).unwrap(), "be2us-64aaa-aaaaa-qaabq-cai");
}
