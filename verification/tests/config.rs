use csx::algorithm_indexer::{AlgorithmIndexerComponentManifest, AlgorithmIndexerDatasource, AlgorithmInputType};
use csx::common::{DatasourceForCanister, DestinationType, LensTargets};
use csx::config::{
    AlgorithmIndexerConfig, LensParameter, RelayerConfig, SnapshotIndexerEVMConfig, SnapshotIndexerHTTPSConfig,
    SnapshotIndexerHTTPSConfigQueries, SnapshotIndexerICPConfig,
};
use csx::relayer::{DestinationField, RelayerComponentManifest};
use csx::snapshot_indexer_evm::{SnapshotIndexerEVMComponentManifest, SnapshotIndexerEVMDatasource};
use csx::snapshot_indexer_https::{
    SnapshotIndexerHTTPSComponentManifest, SnapshotIndexerHTTPSDataSource, SnapshotIndexerHTTPSDataSourceQueries,
};
use csx::snapshot_indexer_icp::SnapshotIndexerICPComponentManifest;

#[test]
fn relayer_configuration() {
    let mut m = RelayerComponentManifest::new("r", "R", "d", "v1", DatasourceForCanister::default(), DestinationField::default(), 60);
    let c = RelayerConfig::from_manifest(m.clone(), true);
    assert_eq!(c.common.canister_name, "r");
    assert_eq!(c.method_identifier, "get_last_snapshot : () -> (record { value : text; timestamp : nat64 })");
    assert_eq!(c.destination, "0539a0EF8e5E60891fFf0958A059E049e43020d9");
    assert_eq!(c.abi_file_path, "__interfaces/Oracle.json");
    assert_eq!(c.method_name, "update_state");
    assert_eq!(c.lens_parameter, None);
    m.lens_targets = Some(LensTargets { identifiers: vec!["t".to_string()] });
    m.destination.type_ = DestinationType::Custom;
    m.destination.interface = Some("Custom.json".to_string());
    m.destination.method_name = Some("write".to_string());
    let c = RelayerConfig::from_manifest(m, false);
    assert_eq!(c.abi_file_path, "__interfaces/Custom.json");
    assert_eq!(c.method_name, "write");
    assert_eq!(c.lens_parameter, Some(LensParameter { with_args: false }));
}

#[test]
fn snapshot_indexer_configurations() {
    let mut icp = SnapshotIndexerICPComponentManifest::new("i", "I", "d", "v1", DatasourceForCanister::default(), 60);
    let c = SnapshotIndexerICPConfig::from_manifest(icp.clone(), true);
    assert!(c.is_target_component);
    assert_eq!(c.lens_parameter, None);
    icp.is_target_component = Some(false);
    icp.lens_targets = Some(LensTargets { identifiers: vec![] });
    let c = SnapshotIndexerICPConfig::from_manifest(icp, true);
    assert!(!c.is_target_component);
    assert_eq!(c.lens_parameter, Some(LensParameter { with_args: true }));

    let evm = SnapshotIndexerEVMComponentManifest::new("e", "E", "d", "v1", SnapshotIndexerEVMDatasource::default(), 60);
    let c = SnapshotIndexerEVMConfig::from_manifest(evm);
    assert_eq!(c.common.canister_name, "e");
    assert_eq!(c.method_identifier, "totalSupply():(uint256)");
    assert_eq!(c.abi_file_path, "./__interfaces/ERC20.json");
    assert!(c.method_args.is_empty());

    let mut https = SnapshotIndexerHTTPSComponentManifest::new("h", "H", "d", "v1", SnapshotIndexerHTTPSDataSource::default(), 60);
    let c = SnapshotIndexerHTTPSConfig::from_manifest(https.clone());
    assert_eq!(c.url, "https://api.coingecko.com/api/v3/simple/price");
    assert_eq!(c.headers, vec![("Content-Type".to_string(), "application/json".to_string())]);
    assert!(matches!(&c.queries, SnapshotIndexerHTTPSConfigQueries::Const(q) if q.len() == 2));
    https.datasource.queries = SnapshotIndexerHTTPSDataSourceQueries::Dynamic;
    let c = SnapshotIndexerHTTPSConfig::from_manifest(https);
    assert!(matches!(&c.queries, SnapshotIndexerHTTPSConfigQueries::Func(f) if f == "get_query_parameters"));
}

#[test]
fn algorithm_indexer_configuration() {
    let m = AlgorithmIndexerComponentManifest::new("a", "A", "d", "v1", AlgorithmIndexerDatasource::default(), vec![], 60);
    let c = AlgorithmIndexerConfig::from_manifest(m);
    assert_eq!(c.common.canister_name, "a");
    assert_eq!(c.indexing.start_from, 17660942);
    assert_eq!(c.indexing.chunk_size, None);
    assert_eq!(c.input.method_name, "proxy_call");
    assert_eq!(c.input.response_type, "Transfer");
    assert_eq!(c.input.source_type, AlgorithmInputType::EventIndexer);
}
