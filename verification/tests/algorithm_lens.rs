use csx::algorithm_lens::{
    generate_scripts, validate_manifest, AlgorithmLensComponentManifest, AlgorithmLensDataSource,
    AlgorithmLensDataSourceMethod,
};
use csx::common::{ComponentMetadata, SourceType};
use csx::types::{ComponentType, Network};

#[test]
fn test_validate_manifests() {
    let result = AlgorithmLensComponentManifest {
        id: None,
        version: "v1".to_string(),
        metadata: ComponentMetadata {
            label: "sample_algorithm_lens".to_string(),
            type_: ComponentType::AlgorithmLens,
            description: "Description".to_string(),
            tags: Some(vec!["Ethereum".to_string(), "Account".to_string()]),
        },
        datasource: AlgorithmLensDataSource {
            methods: vec![
                AlgorithmLensDataSourceMethod {
                    id: "last_snapshot".to_string(),
                    identifier: "get_last_snapshot_1 : () -> (Snapshot)".to_string(),
                    candid_file_path: Some("interfaces/sample_1.did".to_string()),
                },
                AlgorithmLensDataSourceMethod {
                    id: "last_snapshot".to_string(),
                    identifier: "get_last_snapshot_2 : () -> (text)".to_string(),
                    candid_file_path: Some("interfaces/sample_2.did".to_string()),
                },
            ],
            with_args: true,
        },
        cycles: None,
    };
    let err = validate_manifest(&result).unwrap_err();
    assert_eq!(err.to_string(), "duplicated id found in datasource.methods: last_snapshot");
}

#[test]
fn lens_manifest_and_script() {
    let m = AlgorithmLensComponentManifest::new("sample_lens", "Sample", "Description", "v1", AlgorithmLensDataSource::default());
    assert!(validate_manifest(&m).is_ok());
    assert_eq!(m.dependencies(), vec!["sample_snapshot_indexer_icp".to_string()]);
    assert_eq!(m.component_type(), ComponentType::AlgorithmLens);
    let s = m.get_sources();
    assert_eq!(s.source_type, SourceType::Chainsight);
    assert_eq!(s.source, "2vxsx-fae");
    assert!(s.attributes.is_empty());
    assert!(m.custom_tags().is_empty());
    let script = generate_scripts(&m, Network::IC).unwrap();
    assert!(script.starts_with("#!/bin/bash\n# init\ndfx canister --network ic call sample_lens init_in '(variant { \"Production\" }"));
    assert!(script.ends_with("--wallet $(dfx identity get-wallet --network ic)\n"));
    let mut other = m.clone();
    other.metadata.type_ = ComponentType::Relayer;
    assert_eq!(validate_manifest(&other).unwrap_err(), "type is not AlgorithmLens");
}
