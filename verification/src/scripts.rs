//! The shell scripts that set up and start a component's canisters.

use vstd::prelude::*;
use crate::text::{decimal, bool_text, push_decimal, push_bool};
use crate::types::Network;
use crate::common::{TimerSettings, CycleManagements, or_default};
use crate::principal::{principal_text_valid, ascii_lowercase, principal_canonical_text};

verus! {

/// The dfx flag that selects a network: none for the local replica.
pub open spec fn network_param_spec(network: Network) -> Seq<char> {
    match network {
        Network::IC => "--network ic"@,
        Network::Local => ""@,
    }
}

pub fn network_param(network: &Network) -> (res: &'static str)
    ensures
        res@ == network_param_spec(*network),
{
    match network {
        Network::IC => "--network ic",
        Network::Local => "",
    }
}

/// The command that starts a component's periodic task.
pub open spec fn set_task_command_spec(id: Seq<char>, network: Network, timer: TimerSettings) -> Seq<char> {
    "dfx canister "@ + network_param_spec(network) + " call "@ + id + " set_task_with_rounded '("@ + decimal(timer.interval_sec as nat) + ", "@ + decimal(or_default(timer.delay_sec, 0u32) as nat) + ", "@ + bool_text(or_default(timer.is_round_start_timing, false)) + ")'"@
}

pub fn generate_command_to_set_task(id: &str, network: &Network, timer: &TimerSettings) -> (res: String)
    ensures
        res@ == set_task_command_spec(id@, *network, *timer),
{
    let delay: u32 = match timer.delay_sec { Some(d) => d, None => 0 };
    let round: bool = match timer.is_round_start_timing { Some(b) => b, None => false };
    let mut res = String::new();
    res.append("dfx canister ");
    res.append(network_param(network));
    res.append(" call ");
    res.append(id);
    res.append(" set_task_with_rounded '(");
    push_decimal(&mut res, timer.interval_sec as u128);
    res.append(", ");
    push_decimal(&mut res, delay as u128);
    res.append(", ");
    push_bool(&mut res, round);
    res.append(")'");
    assert(res@ =~= set_task_command_spec(id@, *network, *timer));
    res
}

/// The name of the environment a network's canisters are set up for.
pub open spec fn sdk_env_name(network: Network) -> Seq<char> {
    match network {
        Network::Local => "LocalDevelopment"@,
        Network::IC => "Production"@,
    }
}

/// The command that initialises a component's canisters with their cycles.
pub open spec fn init_in_env_task_spec(network: Network, id: Seq<char>, cycles: CycleManagements) -> Seq<char> {
    "dfx canister "@ + network_param_spec(network) + " call "@ + id + " init_in '(variant { \""@ + sdk_env_name(network) + "\" }, record {\n                refueling_interval = "@ + decimal(cycles.refueling_interval as nat) + ": nat64;\n                vault_intial_supply = "@ + decimal(cycles.vault_intial_supply as nat) + ": nat;\n                indexer = record { \n                    initial_supply = "@ + decimal(cycles.indexer.initial_supply as nat) + ": nat;\n                    refueling_amount = "@ + decimal(cycles.indexer.refueling_amount as nat) + ": nat;\n                    refueling_threshold = "@ + decimal(cycles.indexer.refueling_threshold as nat) + ": nat;\n                };\n                db = record { \n                    initial_supply = "@ + decimal(cycles.db.initial_supply as nat) + ": nat;\n                    refueling_amount = "@ + decimal(cycles.db.refueling_amount as nat) + ": nat;\n                    refueling_threshold = "@ + decimal(cycles.db.refueling_threshold as nat) + ": nat;\n                };\n                proxy = record { \n                    initial_supply = "@ + decimal(cycles.proxy.initial_supply as nat) + ": nat;\n                    refueling_amount = "@ + decimal(cycles.proxy.refueling_amount as nat) + ": nat;\n                    refueling_threshold = "@ + decimal(cycles.proxy.refueling_threshold as nat) + ": nat;\n                };\n        })' --with-cycles "@ + decimal(cycles.initial_supply_spec() as nat) + " --wallet $(dfx identity get-wallet "@ + network_param_spec(network) + ")"@
}

pub fn init_in_env_task(network: &Network, id: &str, cycles: &CycleManagements) -> (res: String)
    requires
        cycles.initial_supply_spec() <= u128::MAX,
    ensures
        res@ == init_in_env_task_spec(*network, id@, *cycles),
{
    let env_name = match network {
        Network::Local => "LocalDevelopment",
        Network::IC => "Production",
    };
    let total = cycles.initial_supply();
    let mut res = String::new();
    res.append("dfx canister ");
    res.append(network_param(network));
    res.append(" call ");
    res.append(id);
    res.append(" init_in '(variant { \"");
    res.append(env_name);
    res.append("\" }, record {\n                refueling_interval = ");
    push_decimal(&mut res, cycles.refueling_interval as u128);
    res.append(": nat64;\n                vault_intial_supply = ");
    push_decimal(&mut res, cycles.vault_intial_supply as u128);
    res.append(": nat;\n                indexer = record { \n                    initial_supply = ");
    push_decimal(&mut res, cycles.indexer.initial_supply as u128);
    res.append(": nat;\n                    refueling_amount = ");
    push_decimal(&mut res, cycles.indexer.refueling_amount as u128);
    res.append(": nat;\n                    refueling_threshold = ");
    push_decimal(&mut res, cycles.indexer.refueling_threshold as u128);
    res.append(": nat;\n                };\n                db = record { \n                    initial_supply = ");
    push_decimal(&mut res, cycles.db.initial_supply as u128);
    res.append(": nat;\n                    refueling_amount = ");
    push_decimal(&mut res, cycles.db.refueling_amount as u128);
    res.append(": nat;\n                    refueling_threshold = ");
    push_decimal(&mut res, cycles.db.refueling_threshold as u128);
    res.append(": nat;\n                };\n                proxy = record { \n                    initial_supply = ");
    push_decimal(&mut res, cycles.proxy.initial_supply as u128);
    res.append(": nat;\n                    refueling_amount = ");
    push_decimal(&mut res, cycles.proxy.refueling_amount as u128);
    res.append(": nat;\n                    refueling_threshold = ");
    push_decimal(&mut res, cycles.proxy.refueling_threshold as u128);
    res.append(": nat;\n                };\n        })' --with-cycles ");
    push_decimal(&mut res, total as u128);
    res.append(" --wallet $(dfx identity get-wallet ");
    res.append(network_param(network));
    res.append(")");
    assert(res@ =~= init_in_env_task_spec(*network, id@, *cycles));
    res
}


/// A principal's text as the principal prints it, or otherwise a shell
/// expression that asks dfx for the id of the canister of that name.
pub open spec fn principal_or_resolver_spec(s: Seq<char>, network: Network) -> Seq<char> {
    if principal_text_valid(s) {
        ascii_lowercase(s)
    } else {
        "$(dfx canister "@ + network_param_spec(network) + " id "@ + s + ")"@
    }
}

pub fn principal_or_resolver_str(str: &str, network: &Network) -> (res: String)
    ensures
        res@ == principal_or_resolver_spec(str@, *network),
{
    match principal_canonical_text(str) {
        Some(t) => t,
        None => {
            let mut res = String::from_str("$(dfx canister ");
            res.append(network_param(network));
            res.append(" id ");
            res.append(str);
            res.append(")");
            res
        },
    }
}

} // verus!
