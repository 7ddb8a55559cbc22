use csx::component_ids::ComponentIdsManager;
use csx::dfx::DfxWrapperNetwork;
use csx::relayer::try_generate_component_setup_args;
use csx::types::SdkEnv;
use csx::common::{
    AttributeValue, DatasourceForCanister, DatasourceLocationForCanister, DatasourceMethod, DestinationType,
    LensTargets, SourceType, TimerSettings,
};
use csx::relayer::{generate_command_to_setup, generate_scripts, oracle_type, validate_manifest, DestinationField, RelayerComponentManifest};
use csx::types::{ComponentType, Network};

fn sample_relayer_manifest() -> RelayerComponentManifest {
    let mut m = RelayerComponentManifest::new(
        "sample_relayer",
        "Sample Relayer",
        "Description",
        "v1",
        DatasourceForCanister {
            location: DatasourceLocationForCanister { id: "datasource_canister_id".to_string() },
            method: DatasourceMethod {
                identifier: "get_last_snapshot : () -> (record { value : text; timestamp : nat64 })".to_string(),
                interface: None,
                args: vec![],
            },
        },
        DestinationField {
            network_id: 1,
            type_: DestinationType::String,
            oracle_address: "0x0539a0EF8e5E60891fFf0958A059E049e43020d9".to_string(),
            rpc_url: "https://eth.llamarpc.com".to_string(),
            method_name: None,
            interface: None,
        },
        3600,
    );
    m.timer_settings = TimerSettings { interval_sec: 3600, delay_sec: None, is_round_start_timing: None };
    m
}

#[test]
fn test_oracle_type() {
    assert_eq!(oracle_type(Some(DestinationType::Uint256)), "uint256");
    assert_eq!(oracle_type(Some(DestinationType::Uint128)), "uint128");
    assert_eq!(oracle_type(Some(DestinationType::Uint64)), "uint64");
    assert_eq!(oracle_type(Some(DestinationType::String)), "string");
    assert_eq!(oracle_type(Some(DestinationType::Custom)), "custom");
}

#[test]
fn new_relayer_manifest() {
    let m = sample_relayer_manifest();
    assert_eq!(m.id, Some("sample_relayer".to_string()));
    assert_eq!(m.metadata.type_, ComponentType::Relayer);
    assert_eq!(m.metadata.tags, Some(vec!["Oracle".to_string(), "snapshot".to_string()]));
    assert!(m.lens_targets.is_none());
    assert!(m.cycles.is_none());
    assert_eq!(m.component_type(), ComponentType::Relayer);
    assert_eq!(m.destination_type(), Some(DestinationType::String));
    assert!(validate_manifest(&m).is_ok());
}

#[test]
fn standard_and_custom_destinations() {
    let mut m = sample_relayer_manifest();
    assert_eq!(m.abi_file_path(), "__interfaces/Oracle.json");
    assert_eq!(m.relay_method_name(), "update_state");
    assert_eq!(m.required_interface(), None);
    m.destination.type_ = DestinationType::Custom;
    m.destination.interface = Some("MyOracle.json".to_string());
    m.destination.method_name = Some("push".to_string());
    assert_eq!(m.abi_file_path(), "__interfaces/MyOracle.json");
    assert_eq!(m.relay_method_name(), "push");
    assert_eq!(m.required_interface(), Some("MyOracle.json".to_string()));
}

#[test]
fn relayer_tags_and_sources() {
    let mut m = sample_relayer_manifest();
    assert_eq!(
        m.custom_tags(),
        vec![
            (
                "chainsight:destination".to_string(),
                r#"{"destination_type":"evm","destination":"0x0539a0EF8e5E60891fFf0958A059E049e43020d9","attributes":{"chain_id":1}}"#.to_string()
            ),
            ("chainsight:oracleType".to_string(), "string".to_string()),
            ("chainsight:intervalSec".to_string(), "3600".to_string()),
        ]
    );
    let s = m.get_sources();
    assert_eq!(s.source_type, SourceType::Chainsight);
    assert_eq!(s.source, "datasource_canister_id");
    assert!(s.attributes.is_empty());
    m.lens_targets = Some(LensTargets { identifiers: vec!["a".to_string(), "b".to_string()] });
    let s = m.get_sources();
    assert_eq!(s.attributes.len(), 1);
    assert_eq!(s.attributes[0].0, "sources");
    assert!(matches!(&s.attributes[0].1, AttributeValue::TextList(l) if l == &vec!["a".to_string(), "b".to_string()]));
}

#[test]
fn relayer_setup_commands() {
    assert_eq!(
        generate_command_to_setup(
            "sample_relayer",
            "datasource_canister_id",
            &vec![],
            "0xabc",
            1,
            "https://eth.llamarpc.com",
            &Network::IC,
        ),
        r#"dfx canister --network ic call sample_relayer setup "(
    \"0xabc\",
    record {
        url = \"https://eth.llamarpc.com\";
        from = null;
        chain_id = 1;
        env = variant { Production };
    },
    \"$(dfx canister --network ic id datasource_canister_id)\",
    
)""#
    );
    assert_eq!(
        generate_command_to_setup(
            "r",
            "rrkah-fqaaa-aaaaa-aaaaq-cai",
            &vec!["lens_target_canister_1".to_string(), "lens_target_canister_2".to_string()],
            "0xabc",
            80001,
            "https://rpc",
            &Network::Local,
        ),
        r#"dfx canister  call r setup "(
    \"0xabc\",
    record {
        url = \"https://rpc\";
        from = null;
        chain_id = 80001;
        env = variant { LocalDevelopment };
    },
    \"rrkah-fqaaa-aaaaa-aaaaq-cai\",
    vec { \"$(dfx canister  id lens_target_canister_1)\"; \"$(dfx canister  id lens_target_canister_2)\" },
)""#
    );
}

#[test]
fn relayer_scripts() {
    let m = sample_relayer_manifest();
    let script = generate_scripts(&m, Network::Local).unwrap();
    assert!(script.starts_with("#!/bin/bash\n# init\ndfx canister  call sample_relayer init_in '(variant { \"LocalDevelopment\" }"));
    assert!(script.contains("\n# setup\ndfx canister  call sample_relayer setup \"(\n"));
    assert!(script.ends_with("\n# set_task\ndfx canister  call sample_relayer set_task_with_rounded '(3600, 0, false)'\n"));
    let mut other = sample_relayer_manifest();
    other.metadata.type_ = ComponentType::SnapshotIndexerICP;
    assert_eq!(generate_scripts(&other, Network::Local).unwrap_err(), "type is not Relayer");
    assert_eq!(validate_manifest(&other).unwrap_err(), "type is not Relayer");
}

#[test]
fn default_destination() {
    let d = DestinationField::default();
    assert_eq!(d.network_id, 80001);
    assert_eq!(d.type_, DestinationType::Uint256);
    assert_eq!(d.rpc_url, "https://eth.llamarpc.com");
    assert_eq!(d.oracle_address, "0539a0EF8e5E60891fFf0958A059E049e43020d9");
}

#[test]
fn relayer_setup_arguments() {
    let mut ids = ComponentIdsManager::new(&DfxWrapperNetwork::IC);
    ids.add("datasource_canister_id".to_string(), "rrkah-fqaaa-aaaaa-aaaaq-cai".to_string());
    let mut m = sample_relayer_manifest();
    let args = try_generate_component_setup_args(&m, &Network::IC, &ids).unwrap();
    assert_eq!(args.oracle_address, "0x0539a0EF8e5E60891fFf0958A059E049e43020d9");
    assert_eq!(args.web3_ctx_param.url, "https://eth.llamarpc.com");
    assert_eq!(args.web3_ctx_param.from, None);
    assert_eq!(args.web3_ctx_param.chain_id, 1);
    assert_eq!(args.web3_ctx_param.env, SdkEnv::Production);
    assert_eq!(args.target_canister, "rrkah-fqaaa-aaaaa-aaaaq-cai");
    assert_eq!(args.lens_targets, None);
    m.lens_targets = Some(LensTargets { identifiers: vec!["ryjl3-tyaaa-aaaaa-aaaba-cai".to_string()] });
    let args = try_generate_component_setup_args(&m, &Network::Local, &ids).unwrap();
    assert_eq!(args.web3_ctx_param.env, SdkEnv::LocalDevelopment);
    assert_eq!(args.lens_targets, Some(vec!["ryjl3-tyaaa-aaaaa-aaaba-cai".to_string()]));
    m.lens_targets = Some(LensTargets { identifiers: vec!["missing_lens".to_string()] });
    assert_eq!(
        try_generate_component_setup_args(&m, &Network::IC, &ids).unwrap_err(),
        "Failed to get canister id for missing_lens"
    );
}
