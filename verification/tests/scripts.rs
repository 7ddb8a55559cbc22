use csx::common::{CycleManagement, CycleManagements, TimerSettings};
use csx::scripts::{generate_command_to_set_task, init_in_env_task, network_param, principal_or_resolver_str};
use csx::types::Network;

#[test]
fn network_parameters() {
    assert_eq!(network_param(&Network::IC), "--network ic");
    assert_eq!(network_param(&Network::Local), "");
}

#[test]
fn set_task_commands() {
    let timer = TimerSettings { interval_sec: 3600, delay_sec: None, is_round_start_timing: None };
    assert_eq!(
        generate_command_to_set_task("sample", &Network::Local, &timer),
        "dfx canister  call sample set_task_with_rounded '(3600, 0, false)'"
    );
    let timer = TimerSettings { interval_sec: 60, delay_sec: Some(15), is_round_start_timing: Some(true) };
    assert_eq!(
        generate_command_to_set_task("x", &Network::IC, &timer),
        "dfx canister --network ic call x set_task_with_rounded '(60, 15, true)'"
    );
}

fn sample_cycles() -> CycleManagements {
    CycleManagements {
        refueling_interval: 86400,
        vault_intial_supply: 1_000_000_000_000,
        indexer: CycleManagement { initial_supply: 0, refueling_amount: 1_000_000_000_000, refueling_threshold: 500_000_000_000 },
        db: CycleManagement { initial_supply: 1_500_000_000_000, refueling_amount: 1_000_000_000_000, refueling_threshold: 500_000_000_000 },
        proxy: CycleManagement { initial_supply: 300_000_000_000, refueling_amount: 100_000_000_000, refueling_threshold: 100_000_000_000 },
    }
}

#[test]
fn init_commands() {
    let expected = r#"dfx canister --network ic call sample init_in '(variant { "Production" }, record {
                refueling_interval = 86400: nat64;
                vault_intial_supply = 1000000000000: nat;
                indexer = record { 
                    initial_supply = 0: nat;
                    refueling_amount = 1000000000000: nat;
                    refueling_threshold = 500000000000: nat;
                };
                db = record { 
                    initial_supply = 1500000000000: nat;
                    refueling_amount = 1000000000000: nat;
                    refueling_threshold = 500000000000: nat;
                };
                proxy = record { 
                    initial_supply = 300000000000: nat;
                    refueling_amount = 100000000000: nat;
                    refueling_threshold = 100000000000: nat;
                };
        })' --with-cycles 2800000000000 --wallet $(dfx identity get-wallet --network ic)"#;
    assert_eq!(init_in_env_task(&Network::IC, "sample", &sample_cycles()), expected);
    let local = init_in_env_task(&Network::Local, "sample", &sample_cycles());
    assert!(local.starts_with("dfx canister  call sample init_in '(variant { \"LocalDevelopment\" }, record {"));
    assert!(local.ends_with("--with-cycles 2800000000000 --wallet $(dfx identity get-wallet )"));
}

#[test]
fn principals_and_resolvers() {
    assert_eq!(principal_or_resolver_str("rrkah-fqaaa-aaaaa-aaaaq-cai", &Network::IC), "rrkah-fqaaa-aaaaa-aaaaq-cai");
    assert_eq!(principal_or_resolver_str("RRKAH-FQAAA-AAAAA-AAAAQ-CAI", &Network::IC), "rrkah-fqaaa-aaaaa-aaaaq-cai");
    assert_eq!(principal_or_resolver_str("sample_lens", &Network::IC), "$(dfx canister --network ic id sample_lens)");
    assert_eq!(principal_or_resolver_str("sample_lens", &Network::Local), "$(dfx canister  id sample_lens)");
}
