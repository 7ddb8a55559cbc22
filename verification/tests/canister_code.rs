use csx::algorithm_indexer::{
    AlgorithmIndexerComponentManifest, AlgorithmIndexerDatasource, AlgorithmIndexerOutput, AlgorithmOutputType,
};
use csx::canister_code::{
    custom_codes_for_contract, generate_outside_call_idents, generate_queries_without_timestamp,
    generate_request_arg_idents, match_primitive_type, rust_string_literal, try_custom_codes_for_contract, YamlArg,
    convert_struct_path_to_token_stream, ident_path_exec, try_match_primitive_type,
};
use csx::canister_code::{custom_codes_for_canister, CanisterMethodSignature, CanisterMethodValueType};
use csx::common::{DatasourceForCanister, OutsideCallType};
use csx::snapshot_indexer_icp::SnapshotIndexerICPComponentManifest;
use csx::snapshot::SnapshotStorage;
use csx::snapshot_indexer_evm::{SnapshotIndexerEVMComponentManifest, SnapshotIndexerEVMDatasource};

fn evm_manifest() -> SnapshotIndexerEVMComponentManifest {
    SnapshotIndexerEVMComponentManifest::new("idx", "My Indexer", "d", "v1", SnapshotIndexerEVMDatasource::default(), 3600)
}

#[test]
fn string_literals_are_escaped() {
    assert_eq!(rust_string_literal("a\"b\\c\n"), "\"a\\\"b\\\\c\\n\"");
}

#[test]
fn request_arguments() {
    let args = vec![
        ("ic_web3_rs::types::U256".to_string(), YamlArg::Str("100".to_string())),
        ("ic_web3_rs::types::U256".to_string(), YamlArg::Num(Some(7))),
        ("ic_web3_rs::types::Address".to_string(), YamlArg::Str("0xabc".to_string())),
        ("u64".to_string(), YamlArg::Num(Some(5))),
        ("String".to_string(), YamlArg::Str("x".to_string())),
        ("bool".to_string(), YamlArg::Other),
    ];
    let (values, types) = generate_request_arg_idents(&args);
    assert_eq!(
        values,
        vec![
            "ic_web3_rs::types::U256::from_dec_str(\"100\").unwrap()",
            "7u64.into()",
            "ic_web3_rs::types::Address::from_str(\"0xabc\").unwrap()",
            "5u64 as u64",
            "\"x\",",
            "",
        ]
    );
    assert_eq!(types, vec!["String", "String", "String", "u64", "String", "bool"]);
}

#[test]
fn primitive_results() {
    assert_eq!(match_primitive_type("ic_web3_rs::types::U256", None).unwrap(), ("String".to_string(), "res.to_string()".to_string()));
    assert_eq!(match_primitive_type("ic_web3_rs :: types :: U256", None).unwrap(), ("String".to_string(), "res.to_string()".to_string()));
    assert_eq!(match_primitive_type("ic_web3_rs::types::Address", Some(1)).unwrap(), ("String".to_string(), "hex::encode(res.1)".to_string()));
    assert_eq!(match_primitive_type("u64", Some(2)).unwrap(), ("u64".to_string(), "res.2".to_string()));
    assert_eq!(match_primitive_type("u64", None).unwrap(), ("u64".to_string(), "res".to_string()));
    assert_eq!(match_primitive_type("(u64, u8)", None).unwrap_err(), "Unsupported type");
    assert_eq!(match_primitive_type("&str", None).unwrap_err(), "Unsupported type");
    assert!(match_primitive_type("u64 u8", None).is_err());
    assert!(try_match_primitive_type("Vec<u8>", None).is_none());
    assert!(try_match_primitive_type("u64", None).is_some());
}

#[test]
fn test_convert_struct_path_to_token_stream() {
    assert_eq!(convert_struct_path_to_token_stream("ethabi::Address"), "ethabi :: Address");
    assert_eq!(convert_struct_path_to_token_stream("ic_web3_rs::types::U256"), "ic_web3_rs :: types :: U256");
}

#[test]
fn identifier_paths() {
    assert!(ident_path_exec("ethabi::Address"));
    assert!(ident_path_exec("u64"));
    assert!(!ident_path_exec("a::::b"));
    assert!(!ident_path_exec("::a"));
    assert!(!ident_path_exec("Vec<u8>"));
    assert!(!ident_path_exec("1a"));
}

#[test]
fn outside_calls() {
    assert_eq!(
        generate_outside_call_idents(&vec![OutsideCallType::Chainsight]),
        "manage_single_state!(\"target_canister\", String, false);\nsetup_func!({ target_canister: String });\n"
    );
    let both = generate_outside_call_idents(&vec![OutsideCallType::Evm, OutsideCallType::Chainsight]);
    assert!(both.ends_with("setup_func!({ target_addr: String, web3_ctx_param: chainsight_cdk::web3::Web3CtxParam, target_canister: String });\n"));
    assert!(both.starts_with("define_web3_ctx!();"));
}

#[test]
fn queries_name_the_value_type() {
    let q = generate_queries_without_timestamp("SnapshotValue");
    assert!(q.starts_with("fn _get_last_snapshot_value() -> SnapshotValue {"));
    assert!(q.contains("ReceiverProvider::<u64, Vec<SnapshotValue>>::new("));
    assert_eq!(q.matches("SnapshotValue").count(), 9);
}

#[test]
fn contract_snapshot_code() {
    let m = evm_manifest();
    let with_ts = custom_codes_for_contract(&m, SnapshotStorage::new(true)).unwrap();
    assert!(with_ts.contains("type SnapshotValue = (String);"));
    assert!(with_ts.contains("ic_solidity_bindgen::contract_abi!(\"./__interfaces/ERC20.json\");"));
    assert!(with_ts.contains("snapshot_web3_source!(\"total_supply\");"));
    assert!(with_ts.contains("let res = ERC20::new("));
    assert!(with_ts.contains(").total_supply(None).await.unwrap();"));
    assert!(with_ts.contains("value: (res.to_string()),"));
    assert!(with_ts.contains("fn get_last_snapshot_value() -> SnapshotValue"));
    assert!(with_ts.ends_with("did_export!(\"My Indexer\");\n"));
    let plain = custom_codes_for_contract(&m, SnapshotStorage::new(false)).unwrap();
    assert!(plain.contains("pub struct Snapshot(pub String);"));
    assert!(plain.contains("let datum = Snapshot(res.to_string());"));
    assert!(!plain.contains("current_ts_sec"));
}

#[test]
fn contract_snapshot_errors() {
    let mut m = evm_manifest();
    m.datasource.method.interface = None;
    assert_eq!(
        custom_codes_for_contract(&m, SnapshotStorage::new(true)).unwrap_err(),
        "datasource.method.interface is required for contract"
    );
    let mut m = evm_manifest();
    m.datasource.method.identifier = "balanceOf(address):(uint256)".to_string();
    assert_eq!(
        custom_codes_for_contract(&m, SnapshotStorage::new(true)).unwrap_err(),
        "The number of params and args must be the same"
    );
    m.datasource.method.args = vec![serde_yaml::Value::String("0x01".to_string())];
    let code = custom_codes_for_contract(&m, SnapshotStorage::new(true)).unwrap();
    assert!(code.contains(").balance_of(ic_web3_rs::types::Address::from_str(\"0x01\").unwrap(), None)"));
    m.datasource.method.identifier = "ping(address)".to_string();
    assert_eq!(
        custom_codes_for_contract(&m, SnapshotStorage::new(true)).unwrap_err(),
        "The number of response types must be greater than 0"
    );
    m.datasource.method.identifier = "f(])".to_string();
    assert!(try_custom_codes_for_contract(&m, SnapshotStorage::new(true)).is_none());
    m.datasource.method.identifier = "f(bytes):(uint256)".to_string();
    assert!(try_custom_codes_for_contract(&m, SnapshotStorage::new(true)).is_none());
    m.datasource.method.identifier = "f(address):(bytes)".to_string();
    assert!(try_custom_codes_for_contract(&m, SnapshotStorage::new(true)).is_none());
    m.datasource.method.identifier = "f(address):(uint256,bool)".to_string();
    let code = try_custom_codes_for_contract(&m, SnapshotStorage::new(true)).unwrap().unwrap();
    assert!(code.contains("type SnapshotValue = (String, bool);"));
    assert!(code.contains("value: (res.0.to_string(), res.1),"));
}

#[test]
fn canister_snapshot_code() {
    let mut m = SnapshotIndexerICPComponentManifest::new("i", "ICP Indexer", "d", "v1", DatasourceForCanister::default(), 60);
    m.datasource.method.args = vec![serde_yaml::Value::Number(3.into())];
    let sig = CanisterMethodSignature {
        identifier: "get_last".to_string(),
        params: vec!["u64".to_string()],
        return_value: CanisterMethodValueType::Struct(vec![
            ("value".to_string(), "String".to_string()),
            ("timestamp".to_string(), "u64".to_string()),
        ]),
    };
    let code = custom_codes_for_canister(&m, SnapshotStorage::new(true), &sig);
    assert!(code.contains("type SnapshotValue = CustomResponseStruct;"));
    assert!(code.contains("pub struct CustomResponseStruct {\n    pub value: String,\n    pub timestamp: u64\n}"));
    assert!(code.contains("snapshot_icp_source!(\"proxy_get_last\");"));
    assert!(code.contains("type CallCanisterArgs = (u64);"));
    assert!(code.contains("                (3u64 as u64),"));
    assert!(code.contains("value: res.unwrap().clone(),"));
    assert!(code.ends_with("did_export!(\"ICP Indexer\");\n"));
    let sig = CanisterMethodSignature {
        identifier: "pair".to_string(),
        params: vec!["u64".to_string()],
        return_value: CanisterMethodValueType::Tuple(vec!["u64".to_string(), "String".to_string()]),
    };
    let plain = custom_codes_for_canister(&m, SnapshotStorage::new(false), &sig);
    assert!(plain.contains("pub struct Snapshot(pub SnapshotValue);"));
    assert!(plain.contains("type SnapshotValue = (u64, String);"));
    assert!(plain.contains("let datum = Snapshot((res.unwrap().clone()));"));
    assert!(!plain.contains("get_last_snapshot_value"));
}

#[test]
fn algorithm_indexer_logic_template() {
    let mut m = AlgorithmIndexerComponentManifest::new(
        "a", "A", "d", "v1", AlgorithmIndexerDatasource::default(), vec![AlgorithmIndexerOutput::default()], 60,
    );
    let mut second = AlgorithmIndexerOutput::default();
    second.name = "Balances".to_string();
    second.output_type = AlgorithmOutputType::KeyValues;
    second.fields = vec![];
    m.output.push(second);
    let code = csx::canister_code::generate_app(&m);
    assert!(code.contains("pub struct Transfer {\n    pub from: String,\n    pub to: String,\n    pub value: String\n}"));
    assert!(code.contains("chainsight_cdk_macros::KeyValueStore)]\n#[memory_id(1)]\npub struct Account {\n    pub address: String\n}"));
    assert!(code.contains("chainsight_cdk_macros::KeyValuesStore)]\n#[memory_id(1)]\npub struct Balances {\n}"));
    assert!(code.contains("pub fn persist(elem: HashMap<u64, Vec<Transfer>>) {"));
    assert!(code.contains("    Account::default().put(dummy_id);\n    Balances::put(dummy_id, vec![Balances::default()])\n}"));
}

#[test]
fn json_rpc_snapshot_code() {
    let code = csx::snapshot_json_rpc::generate_codes(
        "Rpc",
        "https://rpc.example",
        &vec![("Content-Type".to_string(), "application/json".to_string())],
        &vec![],
    )
    .unwrap();
    assert!(code.contains("Web2JsonRpcSnapshotIndexer::new(\n        \"https://rpc.example\".to_string(),"));
    assert!(code.contains("headers: vec![\n                (\"Content-Type\".to_string(), \"application/json\".to_string()),\n            ].into_iter().collect(),"));
    assert!(code.contains("queries: vec![\n            ].into_iter().collect(),"));
    assert!(code.contains("fn get_snapshot_value(idx: u64) -> SnapshotValue"));
    assert!(code.ends_with("did_export!(\"Rpc\");\n"));
}

#[test]
fn lens_logic_template() {
    use_lens();
}

fn use_lens() {
    let mut ds = csx::algorithm_lens::AlgorithmLensDataSource::default();
    ds.methods.push(csx::algorithm_lens::AlgorithmLensDataSourceMethod {
        id: "other".to_string(),
        identifier: "get_value : (nat64) -> (text)".to_string(),
        candid_file_path: None,
    });
    let mut m = csx::algorithm_lens::AlgorithmLensComponentManifest::new("my_lens", "L", "d", "v1", ds);
    let code = csx::algorithm_lens::generate_app(&m).unwrap();
    assert!(code.starts_with("use my_lens_accessors::*;"));
    assert!(code.contains("pub async fn calculate(targets: Vec<String>) -> LensValue {"));
    assert!(code.contains("    let _result = get_sample_snapshot_indexer_icp(targets.get(0usize).unwrap().clone()).await;\n"));
    assert!(code.contains("    let _result = get_other(targets.get(1usize).unwrap().clone(), todo!(\"Arguments to be used in this call\")).await;\n"));
    m.datasource.with_args = true;
    let code = csx::algorithm_lens::try_generate_app(&m).unwrap().unwrap();
    assert!(code.contains("pub async fn calculate(targets: Vec<String>, args: CalculateArgs) -> LensValue {"));
    m.id = None;
    assert_eq!(csx::algorithm_lens::generate_app(&m).unwrap_err(), "id is required");
}

#[test]
fn common_snapshot_codes() {
    let c = csx::canister_code::common_codes_for_contract();
    assert!(c.contains("define_web3_ctx!();\ndefine_transform_for_web3!();\nmanage_single_state!(\"target_addr\", String, false);\nsetup_func!({ target_addr: String, web3_ctx_param: chainsight_cdk::web3::Web3CtxParam });\n"));
    assert!(c.ends_with("timer_task_func!(\"set_task\", \"execute_task\", true);\n"));
    let c = csx::canister_code::common_codes_for_canister();
    assert!(c.contains("setup_func!({ target_canister: String });\n"));
    assert!(c.starts_with("use candid::{Decode, Encode};"));
}

#[test]
fn algorithm_field_types_print_as_paths() {
    let mut m = AlgorithmIndexerComponentManifest::new(
        "a", "A", "d", "v1", AlgorithmIndexerDatasource::default(), vec![AlgorithmIndexerOutput::default()], 60,
    );
    m.datasource.input.fields = vec![("owner".to_string(), "ethabi::Address".to_string())];
    let code = csx::canister_code::generate_app(&m);
    assert!(code.contains("pub struct Transfer {\n    pub owner: ethabi :: Address\n}"));
}

#[test]
fn generated_source_is_laid_out() {
    assert_eq!(
        csx::src_string::simple_src_format("fn a ( x , y ) { b ; }").unwrap(),
        "fn a(x, y ) {\nb;\n}"
    );
    let s = csx::src_string::SrcString::new("use a :: b ;".to_string());
    assert_eq!(s.to_display().unwrap(), "use a::b;\n");
}

#[test]
fn algorithm_template_checks_names() {
    let mut m = AlgorithmIndexerComponentManifest::new(
        "a", "A", "d", "v1", AlgorithmIndexerDatasource::default(), vec![AlgorithmIndexerOutput::default()], 60,
    );
    assert!(csx::canister_code::try_generate_app(&m).is_some());
    m.datasource.input.fields.push(("from".to_string(), "u64".to_string()));
    assert!(csx::canister_code::try_generate_app(&m).is_none());
    m.datasource.input.fields.pop();
    m.datasource.input.name = "Not an ident".to_string();
    assert!(csx::canister_code::try_generate_app(&m).is_none());
}
