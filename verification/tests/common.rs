use csx::common::{
    custom_tags_interval_sec, cycles_of, function_name_of, interval_tags, yaml_str_with_configs, CycleManagement,
    CycleManagementManifest, CycleManagements, CycleManagementsManifest, DatasourceForCanister, DatasourceMethod,
};
use csx::json::json_string;

#[test]
fn default_cycles_budget() {
    let c = cycles_of(&None);
    assert_eq!(c.refueling_interval, 86400);
    assert_eq!(c.vault_intial_supply, 1_000_000_000_000);
    assert_eq!(c.indexer, CycleManagement { initial_supply: 0, refueling_amount: 1_000_000_000_000, refueling_threshold: 500_000_000_000 });
    assert_eq!(c.db, CycleManagement { initial_supply: 1_500_000_000_000, refueling_amount: 1_000_000_000_000, refueling_threshold: 500_000_000_000 });
    assert_eq!(c.proxy, CycleManagement { initial_supply: 300_000_000_000, refueling_amount: 100_000_000_000, refueling_threshold: 100_000_000_000 });
    assert_eq!(c.initial_supply(), 2_800_000_000_000);
}

#[test]
fn cycles_given_in_part() {
    let m = CycleManagementsManifest {
        refueling_interval: Some(3600),
        vault_intial_supply: None,
        indexer: Some(CycleManagementManifest { initial_supply: Some(7), refueling_amount: None, refueling_threshold: None }),
        db: None,
        proxy: Some(CycleManagementManifest { initial_supply: None, refueling_amount: Some(1), refueling_threshold: Some(2) }),
    };
    let c: CycleManagements = cycles_of(&Some(m));
    assert_eq!(c.refueling_interval, 3600);
    assert_eq!(c.vault_intial_supply, 1_000_000_000_000);
    assert_eq!(c.indexer, CycleManagement { initial_supply: 7, refueling_amount: 1_000_000_000_000, refueling_threshold: 500_000_000_000 });
    assert_eq!(c.db.initial_supply, 1_500_000_000_000);
    assert_eq!(c.proxy, CycleManagement { initial_supply: 300_000_000_000, refueling_amount: 1, refueling_threshold: 2 });
    assert_eq!(c.initial_supply(), 1_000_000_000_000 + 7 + 1_500_000_000_000 + 300_000_000_000);
}

#[test]
fn interval_tag() {
    assert_eq!(custom_tags_interval_sec(3600), ("chainsight:intervalSec".to_string(), "3600".to_string()));
    assert_eq!(interval_tags(0), vec![("chainsight:intervalSec".to_string(), "0".to_string())]);
}

#[test]
fn schema_line() {
    assert_eq!(
        yaml_str_with_configs("version: v1\n".to_string(), "relayer".to_string()),
        "# yaml-language-server: $schema=https://raw.githubusercontent.com/horizonx-tech/chainsight-cli/main/resources/schema/relayer.json\nversion: v1\n"
    );
}

#[test]
fn function_names() {
    assert_eq!(function_name_of("get_last_snapshot : () -> (record { value : text; timestamp : nat64 })"), "get_last_snapshot");
    assert_eq!(function_name_of("totalSupply():(uint256)"), "totalSupply");
    assert_eq!(function_name_of("plain_name"), "plain_name");
    assert_eq!(function_name_of("a b () c : x"), "abc");
}

#[test]
fn json_strings() {
    assert_eq!(json_string("0x0539a0EF8e5E60891fFf0958A059E049e43020d9"), "\"0x0539a0EF8e5E60891fFf0958A059E049e43020d9\"");
    assert_eq!(json_string("a\"b\\c\nd\u{1}"), "\"a\\\"b\\\\c\\nd\\u0001\"");
    assert_eq!(json_string("\u{8}\u{c}\r\t\u{1f}é"), "\"\\b\\f\\r\\t\\u001fé\"");
}

#[test]
fn default_datasources() {
    let m = DatasourceMethod::default();
    assert_eq!(m.identifier, "get_last_snapshot : () -> (record { value : text; timestamp : nat64 })");
    assert_eq!(m.interface, None);
    assert!(m.args.is_empty());
    let d = DatasourceForCanister::default();
    assert_eq!(d.location.id, "sample_snapshot_indexer_evm");
}

#[test]
fn initial_supply_fits_in_u128() {
    let mut c: CycleManagements = cycles_of(&None);
    assert!(c.initial_supply_fits());
    c.vault_intial_supply = u128::MAX;
    assert!(!c.initial_supply_fits());
}
