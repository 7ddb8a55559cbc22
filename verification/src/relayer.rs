//! Relayer components: they copy a value from a canister to a contract on
//! another chain.

use vstd::prelude::*;
use crate::common::{
    AttributeValue, ComponentMetadata, CycleManagements, CycleManagementsManifest, DatasourceForCanister,
    DestinationType, LensTargets, SourceType, Sources, TimerSettings, custom_tags_interval_sec,
    cycle_managements_spec, cycles_or_default, cycles_of, yaml_str_with_configs, yaml_with_schema_spec,
};
use crate::oracle::{get_oracle_address, oracle_address_spec};
use crate::text::{decimal, push_decimal, views, join, join_spec};
use crate::scripts::{
    network_param, network_param_spec, sdk_env_name, principal_or_resolver_str, principal_or_resolver_spec,
    generate_command_to_set_task, set_task_command_spec, init_in_env_task, init_in_env_task_spec,
};
use crate::types::Network;
use crate::component_ids::ComponentIdsManager;
use crate::setup::{
    Web3CtxParam, web3_ctx_param, sdk_env_of, resolve_spec, resolve_name_or_id, try_resolve_name_or_id,
    resolve_all, try_resolve_all, resolve_all_spec, all_resolve, first_unresolved, unresolved_message,
    lemma_none_unresolved_iff_all_resolve,
};
use crate::json::{json_string, json_string_spec};
use crate::types::ComponentType;
use crate::algorithm_lens::{owned_opt, unit_result_view};

verus! {

/// The contract a relayer writes to.
#[derive(Clone, Debug)]
pub struct DestinationField {
    pub network_id: u32,
    pub type_: DestinationType,
    pub oracle_address: String,
    pub rpc_url: String,
    pub method_name: Option<String>,
    pub interface: Option<String>,
}

impl DestinationField {
    pub fn new(network_id: u32, destination_type: DestinationType, oracle_address: String, rpc_url: String) -> (res: Self)
        ensures
            res.network_id == network_id,
            res.type_ == destination_type,
            res.oracle_address == oracle_address,
            res.rpc_url == rpc_url,
            res.method_name is None,
            res.interface is None,
    {
        DestinationField { network_id, type_: destination_type, oracle_address, rpc_url, method_name: None, interface: None }
    }

    /// The sample destination a new relayer starts with.
    pub fn default() -> (res: Self)
        ensures
            res.network_id == 80001,
            res.type_ == DestinationType::Uint256,
            res.oracle_address@ == oracle_address_spec(80001),
            res.rpc_url@ == "https://eth.llamarpc.com"@,
            res.method_name is None,
            res.interface is None,
    {
        let network_id: u32 = 80001;
        Self::new(network_id, DestinationType::Uint256, get_oracle_address(network_id), String::from_str("https://eth.llamarpc.com"))
    }
}

/// How a relayer converts the value it reads before relaying it: the field
/// to take from it, the type to convert it to, and the power of ten to
/// scale it by.
#[derive(Clone, Debug)]
pub struct RelayerConversionParameter {
    pub extracted_field: Option<String>,
    pub destination_type_to_convert: Option<String>,
    pub exponent_of_power10: Option<u32>,
}

/// Component manifest: relayer.
#[derive(Clone, Debug)]
pub struct RelayerComponentManifest {
    pub id: Option<String>,
    pub version: String,
    pub metadata: ComponentMetadata,
    pub datasource: DatasourceForCanister,
    pub destination: DestinationField,
    pub timer_settings: TimerSettings,
    pub conversion_parameter: Option<RelayerConversionParameter>,
    pub lens_targets: Option<LensTargets>,
    pub cycles: Option<CycleManagementsManifest>,
}

/// The name under which a destination type is written (its tag in
/// manifests).
pub open spec fn oracle_type_name(t: DestinationType) -> Seq<char> {
    match t {
        DestinationType::Uint256 => "uint256"@,
        DestinationType::Uint128 => "uint128"@,
        DestinationType::Uint64 => "uint64"@,
        DestinationType::String => "string"@,
        DestinationType::Custom => "custom"@,
    }
}

/// The name of an oracle's destination type. There must be one.
pub fn oracle_type(t: Option<DestinationType>) -> (res: String)
    requires
        t is Some,
    ensures
        res@ == oracle_type_name(t->0),
{
    match t {
        Some(DestinationType::Uint256) => String::from_str("uint256"),
        Some(DestinationType::Uint128) => String::from_str("uint128"),
        Some(DestinationType::Uint64) => String::from_str("uint64"),
        Some(DestinationType::String) => String::from_str("string"),
        Some(DestinationType::Custom) => String::from_str("custom"),
        None => String::new(),
    }
}

/// The file of the contract interface a relayer calls: the custom one the
/// destination names, or the standard oracle's.
pub open spec fn abi_file_path_spec(d: DestinationField) -> Seq<char> {
    match d.type_ {
        DestinationType::Custom => "__interfaces/"@ + d.interface->0@,
        _ => "__interfaces/Oracle.json"@,
    }
}

/// The contract method a relayer calls: the custom one the destination
/// names, or the standard oracle's `update_state`.
pub open spec fn relay_method_name_spec(d: DestinationField) -> Seq<char> {
    match d.type_ {
        DestinationType::Custom => d.method_name->0@,
        _ => "update_state"@,
    }
}

/// The JSON that describes a relayer's destination in its metadata.
pub open spec fn destination_json_spec(d: DestinationField) -> Seq<char> {
    "{\"destination_type\":\"evm\",\"destination\":"@ + json_string_spec(d.oracle_address@)
        + ",\"attributes\":{\"chain_id\":"@ + decimal(d.network_id as nat) + "}}"@
}

impl RelayerComponentManifest {
    pub fn new(
        id: &str,
        label: &str,
        description: &str,
        version: &str,
        datasource: DatasourceForCanister,
        destination: DestinationField,
        interval: u32,
    ) -> (res: Self)
        ensures
            owned_opt(res.id) == Some(id@),
            res.version@ == version@,
            res.metadata.label@ == label@,
            res.metadata.type_ == ComponentType::Relayer,
            res.metadata.description@ == description@,
            res.metadata.tags matches Some(t) && views(t@) == seq!["Oracle"@, "snapshot"@],
            res.datasource == datasource,
            res.destination == destination,
            res.timer_settings.interval_sec == interval,
            res.timer_settings.delay_sec is None,
            res.timer_settings.is_round_start_timing is None,
            res.conversion_parameter is None,
            res.lens_targets is None,
            res.cycles is None,
    {
        let mut tags = Vec::new();
        tags.push(String::from_str("Oracle"));
        tags.push(String::from_str("snapshot"));
        assert(views(tags@) =~= seq!["Oracle"@, "snapshot"@]);
        RelayerComponentManifest {
            id: Some(String::from_str(id)),
            version: String::from_str(version),
            metadata: ComponentMetadata {
                label: String::from_str(label),
                type_: ComponentType::Relayer,
                description: String::from_str(description),
                tags: Some(tags),
            },
            datasource,
            destination,
            timer_settings: TimerSettings { interval_sec: interval, delay_sec: None, is_round_start_timing: None },
            conversion_parameter: None,
            lens_targets: None,
            cycles: None,
        }
    }

    /// The interface file of the contract the relayer calls. A custom
    /// destination must name its interface.
    pub fn abi_file_path(&self) -> (res: String)
        requires
            self.destination.type_ == DestinationType::Custom ==> self.destination.interface is Some,
        ensures
            res@ == abi_file_path_spec(self.destination),
    {
        match self.destination.type_ {
            DestinationType::Custom => {
                let mut res = String::from_str("__interfaces/");
                match &self.destination.interface {
                    Some(i) => res.append(i.as_str()),
                    None => {},
                }
                res
            },
            _ => String::from_str("__interfaces/Oracle.json"),
        }
    }

    /// The contract method the relayer calls. A custom destination must name
    /// its method.
    pub fn relay_method_name(&self) -> (res: String)
        requires
            self.destination.type_ == DestinationType::Custom ==> self.destination.method_name is Some,
        ensures
            res@ == relay_method_name_spec(self.destination),
    {
        match self.destination.type_ {
            DestinationType::Custom => match &self.destination.method_name {
                Some(m) => m.clone(),
                None => String::new(),
            },
            _ => String::from_str("update_state"),
        }
    }

    pub fn component_type(&self) -> (res: ComponentType)
        ensures
            res == ComponentType::Relayer,
    {
        ComponentType::Relayer
    }

    pub fn id(&self) -> (res: Option<String>)
        ensures
            owned_opt(res) == owned_opt(self.id),
    {
        match &self.id {
            Some(s) => Some(s.clone()),
            None => None,
        }
    }

    pub fn destination_type(&self) -> (res: Option<DestinationType>)
        ensures
            res == Some(self.destination.type_),
    {
        Some(self.destination.type_)
    }

    /// The interface file the relayer needs: only a custom destination needs
    /// one, the one it names.
    pub fn required_interface(&self) -> (res: Option<String>)
        ensures
            owned_opt(res) == (match self.destination.type_ {
                DestinationType::Custom => owned_opt(self.destination.interface),
                _ => None,
            }),
    {
        match self.destination.type_ {
            DestinationType::Custom => match &self.destination.interface {
                Some(i) => Some(i.clone()),
                None => None,
            },
            _ => None,
        }
    }

    /// The tags the relayer's wasm carries: its destination, its oracle type
    /// and its interval.
    pub fn custom_tags(&self) -> (res: Vec<(String, String)>)
        ensures
            res@.len() == 3,
            res@[0].0@ == "chainsight:destination"@,
            res@[0].1@ == destination_json_spec(self.destination),
            res@[1].0@ == "chainsight:oracleType"@,
            res@[1].1@ == oracle_type_name(self.destination.type_),
            res@[2].0@ == "chainsight:intervalSec"@,
            res@[2].1@ == decimal(self.timer_settings.interval_sec as nat),
    {
        let mut dest = String::from_str("{\"destination_type\":\"evm\",\"destination\":");
        let addr = json_string(self.destination.oracle_address.as_str());
        dest.append(addr.as_str());
        dest.append(",\"attributes\":{\"chain_id\":");
        push_decimal(&mut dest, self.destination.network_id as u128);
        dest.append("}}");
        assert(dest@ =~= destination_json_spec(self.destination));
        let mut res = Vec::new();
        res.push((String::from_str("chainsight:destination"), dest));
        res.push((String::from_str("chainsight:oracleType"), oracle_type(self.destination_type())));
        res.push(custom_tags_interval_sec(self.timer_settings.interval_sec));
        res
    }

    /// The relayer's source: the canister it reads and, behind a lens, the
    /// lens's targets.
    pub fn get_sources(&self) -> (res: Sources)
        ensures
            res.source_type == SourceType::Chainsight,
            res.source@ == self.datasource.location.id@,
            match self.lens_targets {
                Some(t) => res.attributes@.len() == 1 && res.attributes@[0].0@ == "sources"@
                    && (res.attributes@[0].1 matches AttributeValue::TextList(l) && views(l@) == views(t.identifiers@)),
                None => res.attributes@.len() == 0,
            },
    {
        let mut attributes = Vec::new();
        match &self.lens_targets {
            Some(t) => {
                attributes.push((String::from_str("sources"), AttributeValue::TextList(clone_strings(&t.identifiers))));
            },
            None => {},
        }
        Sources { source_type: SourceType::Chainsight, source: self.datasource.location.id.clone(), attributes }
    }

    /// The cycles budget of the relayer's canisters.
    pub fn cycle_managements(&self) -> (res: CycleManagements)
        ensures
            res == cycle_managements_spec(cycles_or_default(self.cycles)),
    {
        cycles_of(&self.cycles)
    }

    pub fn timer_settings(&self) -> (res: Option<TimerSettings>)
        ensures
            res == Some(self.timer_settings),
    {
        Some(self.timer_settings)
    }

    /// The manifest's YAML with its schema line.
    pub fn yaml_with_schema(&self, yaml: String) -> (res: String)
        ensures
            res@ == yaml_with_schema_spec(yaml@, "relayer"@),
    {
        yaml_str_with_configs(yaml, String::from_str("relayer"))
    }
}

/// A copy of a list of strings.
pub fn clone_strings(v: &Vec<String>) -> (res: Vec<String>)
    ensures
        views(res@) == views(v@),
{
    let mut res: Vec<String> = Vec::new();
    let mut i: usize = 0;
    while i < v.len()
        invariant
            i <= v@.len(),
            views(res@) =~= views(v@.take(i as int)),
        decreases v@.len() - i,
    {
        let ghost before = views(res@);
        res.push(v[i].clone());
        assert(views(res@) =~= before.push(v@[i as int]@));
        assert(v@.take(i + 1) =~= v@.take(i as int).push(v@[i as int]));
        i = i + 1;
    }
    assert(v@.take(i as int) =~= v@);
    res
}

/// Checks a relayer manifest: its type must be a relayer.
pub fn validate_manifest(manifest: &RelayerComponentManifest) -> (res: Result<(), String>)
    ensures
        unit_result_view(res) == (if manifest.metadata.type_ == ComponentType::Relayer { Ok(()) } else { Err("type is not Relayer"@) }),
{
    if manifest.metadata.type_ != ComponentType::Relayer {
        return Err(String::from_str("type is not Relayer"));
    }
    Ok(())
}

/// The lens targets of a relayer's setup call, each resolved to a canister
/// id or a shell expression that asks for one.
pub open spec fn resolved_targets_spec(lens_targets: Seq<Seq<char>>, network: Network) -> Seq<Seq<char>> {
    lens_targets.map_values(|t: Seq<char>| principal_or_resolver_spec(t, network))
}

/// The last argument of a relayer's setup call: nothing without lens
/// targets, else the candid vector of them.
pub open spec fn lens_targets_arg_spec(lens_targets: Seq<Seq<char>>, network: Network) -> Seq<char> {
    if lens_targets.len() == 0 {
        ""@
    } else {
        "vec { \\\""@ + join_spec(resolved_targets_spec(lens_targets, network), "\\\"; \\\""@) + "\\\" },"@
    }
}

/// The command that sets a relayer up: the destination contract, the chain
/// it is on, the canister it reads and the lens targets.
pub open spec fn setup_command_spec(
    id: Seq<char>,
    datasrc_id: Seq<char>,
    lens_targets: Seq<Seq<char>>,
    dst_address: Seq<char>,
    dst_network_id: u32,
    dst_rpc_url: Seq<char>,
    network: Network,
) -> Seq<char> {
    "dfx canister "@ + network_param_spec(network) + " call "@ + id + " setup \"(\n    \\\""@ + dst_address
        + "\\\",\n    record {\n        url = \\\""@ + dst_rpc_url + "\\\";\n        from = null;\n        chain_id = "@
        + decimal(dst_network_id as nat) + ";\n        env = variant { "@ + sdk_env_name(network) + " };\n    },\n    \\\""@
        + principal_or_resolver_spec(datasrc_id, network) + "\\\",\n    "@ + lens_targets_arg_spec(lens_targets, network)
        + "\n)\""@
}

pub fn generate_command_to_setup(
    id: &str,
    datasrc_id: &str,
    lens_targets: &Vec<String>,
    dst_address: &str,
    dst_network_id: u32,
    dst_rpc_url: &str,
    network: &Network,
) -> (res: String)
    ensures
        res@ == setup_command_spec(id@, datasrc_id@, views(lens_targets@), dst_address@, dst_network_id, dst_rpc_url@, *network),
{
    let target_canister = principal_or_resolver_str(datasrc_id, network);
    let mut resolved: Vec<String> = Vec::new();
    let mut i: usize = 0;
    while i < lens_targets.len()
        invariant
            i <= lens_targets@.len(),
            views(resolved@) =~= resolved_targets_spec(views(lens_targets@).take(i as int), *network),
        decreases lens_targets@.len() - i,
    {
        let ghost before = views(resolved@);
        let r = principal_or_resolver_str(lens_targets[i].as_str(), network);
        resolved.push(r);
        assert(views(resolved@) =~= before.push(principal_or_resolver_spec(lens_targets@[i as int]@, *network)));
        assert(views(lens_targets@).take(i + 1) =~= views(lens_targets@).take(i as int).push(lens_targets@[i as int]@));
        i = i + 1;
    }
    assert(views(lens_targets@).take(i as int) =~= views(lens_targets@));
    let lens_targets_arg = if resolved.len() == 0 {
        proof { reveal_strlit(""); }
        assert(views(lens_targets@).len() == 0);
        String::new()
    } else {
        let mut a = String::from_str("vec { \\\"");
        let joined = join(&resolved, "\\\"; \\\"");
        a.append(joined.as_str());
        a.append("\\\" },");
        assert(views(lens_targets@).len() > 0);
        assert(a@ == lens_targets_arg_spec(views(lens_targets@), *network));
        a
    };
    assert(views(resolved@) == resolved_targets_spec(views(lens_targets@), *network));
    assert(lens_targets_arg@ == lens_targets_arg_spec(views(lens_targets@), *network));
    let env_name = match network {
        Network::IC => "Production",
        Network::Local => "LocalDevelopment",
    };
    assert(env_name@ == sdk_env_name(*network));
    let mut res = String::from_str("dfx canister ");
    res.append(network_param(network));
    res.append(" call ");
    res.append(id);
    res.append(" setup \"(\n    \\\"");
    res.append(dst_address);
    res.append("\\\",\n    record {\n        url = \\\"");
    res.append(dst_rpc_url);
    res.append("\\\";\n        from = null;\n        chain_id = ");
    push_decimal(&mut res, dst_network_id as u128);
    res.append(";\n        env = variant { ");
    res.append(env_name);
    res.append(" };\n    },\n    \\\"");
    res.append(target_canister.as_str());
    res.append("\\\",\n    ");
    res.append(lens_targets_arg.as_str());
    res.append("\n)\"");
    assert(res@ =~= setup_command_spec(id@, datasrc_id@, views(lens_targets@), dst_address@, dst_network_id, dst_rpc_url@, *network));
    res
}

/// The identifiers of a relayer's lens targets, none without them.
pub open spec fn lens_target_ids(t: Option<LensTargets>) -> Seq<Seq<char>> {
    match t {
        Some(t) => views(t.identifiers@),
        None => Seq::empty(),
    }
}

/// The script that initialises, sets up and starts a relayer.
pub open spec fn script_contents_spec(m: RelayerComponentManifest, network: Network) -> Seq<char> {
    let id = m.id->0@;
    "#!/bin/bash\n# init\n"@ + init_in_env_task_spec(network, id, cycle_managements_spec(cycles_or_default(m.cycles)))
        + "\n# setup\n"@ + setup_command_spec(id, m.datasource.location.id@, lens_target_ids(m.lens_targets),
            m.destination.oracle_address@, m.destination.network_id, m.destination.rpc_url@, network)
        + "\n# set_task\n"@ + set_task_command_spec(id, network, m.timer_settings) + "\n"@
}

/// The script of a relayer, if the manifest is one. The manifest must carry
/// its id.
pub fn generate_scripts(manifest: &RelayerComponentManifest, network: Network) -> (res: Result<String, String>)
    requires
        manifest.id is Some,
        manifest.metadata.type_ == ComponentType::Relayer ==>
            cycle_managements_spec(cycles_or_default(manifest.cycles)).initial_supply_spec() <= u128::MAX,
    ensures
        manifest.metadata.type_ != ComponentType::Relayer ==> (res matches Err(e) && e@ == "type is not Relayer"@),
        manifest.metadata.type_ == ComponentType::Relayer ==> (res matches Ok(s) && s@ == script_contents_spec(*manifest, network)),
{
    if manifest.metadata.type_ != ComponentType::Relayer {
        return Err(String::from_str("type is not Relayer"));
    }
    let id = match manifest.id() {
        Some(id) => id,
        None => { return Err(String::new()); },
    };
    let lens_targets = match &manifest.lens_targets {
        Some(t) => clone_strings(&t.identifiers),
        None => Vec::new(),
    };
    assert(views(lens_targets@) =~= lens_target_ids(manifest.lens_targets));
    let setup = generate_command_to_setup(
        id.as_str(),
        manifest.datasource.location.id.as_str(),
        &lens_targets,
        manifest.destination.oracle_address.as_str(),
        manifest.destination.network_id,
        manifest.destination.rpc_url.as_str(),
        &network,
    );
    let set_task = generate_command_to_set_task(id.as_str(), &network, &manifest.timer_settings);
    let cycles = manifest.cycle_managements();
    let init = init_in_env_task(&network, id.as_str(), &cycles);
    let mut res = String::from_str("#!/bin/bash\n# init\n");
    res.append(init.as_str());
    res.append("\n# setup\n");
    res.append(setup.as_str());
    res.append("\n# set_task\n");
    res.append(set_task.as_str());
    res.append("\n");
    Ok(res)
}

/// What a relayer's setup call is made with: the oracle it writes to, the
/// connection to the oracle's chain, the canister it reads and, behind a
/// lens, the lens's targets (`None` without lens targets: the call then
/// takes three arguments).
#[derive(Clone, Debug)]
pub struct RelayerSetupArgs {
    pub oracle_address: String,
    pub web3_ctx_param: Web3CtxParam,
    pub target_canister: String,
    pub lens_targets: Option<Vec<String>>,
}

/// Whether a relayer's canister and lens targets all stand for canister ids.
pub open spec fn setup_resolves(m: RelayerComponentManifest, mgr: ComponentIdsManager) -> bool {
    &&& resolve_spec(m.datasource.location.id@, mgr) is Some
    &&& all_resolve(lens_target_ids(m.lens_targets), mgr)
}

/// Whether `a` are the arguments of the setup call of relayer `m` on
/// `network`: the oracle's address, the connection to its chain, the
/// canister read, and the lens targets where there are any, all names
/// resolved to ids.
pub open spec fn is_setup_args(a: RelayerSetupArgs, m: RelayerComponentManifest, network: Network, mgr: ComponentIdsManager) -> bool {
    &&& a.oracle_address@ == m.destination.oracle_address@
    &&& a.web3_ctx_param.url@ == m.destination.rpc_url@
    &&& a.web3_ctx_param.from is None
    &&& a.web3_ctx_param.chain_id == m.destination.network_id
    &&& a.web3_ctx_param.env == sdk_env_of(network)
    &&& a.target_canister@ == resolve_spec(m.datasource.location.id@, mgr)->0
    &&& lens_target_ids(m.lens_targets).len() == 0 ==> a.lens_targets is None
    &&& lens_target_ids(m.lens_targets).len() > 0 ==> (a.lens_targets matches Some(t)
            && views(t@) == resolve_all_spec(lens_target_ids(m.lens_targets), mgr))
}

/// The arguments of a relayer's setup call, its canister and lens targets
/// resolved to ids. Each must stand for one.
pub fn generate_component_setup_args(manifest: &RelayerComponentManifest, network: &Network, comp_id_mgr: &ComponentIdsManager) -> (res: RelayerSetupArgs)
    requires
        setup_resolves(*manifest, *comp_id_mgr),
    ensures
        is_setup_args(res, *manifest, *network, *comp_id_mgr),
{
    let target_canister = resolve_name_or_id(manifest.datasource.location.id.as_str(), comp_id_mgr);
    let web3 = web3_ctx_param(manifest.destination.rpc_url.as_str(), manifest.destination.network_id as u64, network);
    let names = match &manifest.lens_targets {
        Some(t) => clone_strings(&t.identifiers),
        None => Vec::new(),
    };
    assert(views(names@) =~= lens_target_ids(manifest.lens_targets));
    let lens_targets = if names.len() == 0 { None } else { Some(resolve_all(&names, comp_id_mgr)) };
    RelayerSetupArgs {
        oracle_address: manifest.destination.oracle_address.clone(),
        web3_ctx_param: web3,
        target_canister,
        lens_targets,
    }
}

/// The arguments of a relayer's setup call, or the error for the first of
/// its canister and lens targets that stands for no id.
pub fn try_generate_component_setup_args(manifest: &RelayerComponentManifest, network: &Network, comp_id_mgr: &ComponentIdsManager) -> (res: Result<RelayerSetupArgs, String>)
    ensures
        resolve_spec(manifest.datasource.location.id@, *comp_id_mgr) is None ==>
            (res matches Err(e) && e@ == unresolved_message(manifest.datasource.location.id@)),
        resolve_spec(manifest.datasource.location.id@, *comp_id_mgr) is Some ==> match first_unresolved(lens_target_ids(manifest.lens_targets), *comp_id_mgr) {
            Some(n) => res matches Err(e) && e@ == unresolved_message(n),
            None => res is Ok,
        },
        res matches Ok(a) ==> is_setup_args(a, *manifest, *network, *comp_id_mgr),
{
    match try_resolve_name_or_id(manifest.datasource.location.id.as_str(), comp_id_mgr) {
        Err(e) => { return Err(e); },
        Ok(_) => {},
    }
    let names = match &manifest.lens_targets {
        Some(t) => clone_strings(&t.identifiers),
        None => Vec::new(),
    };
    assert(views(names@) =~= lens_target_ids(manifest.lens_targets));
    match try_resolve_all(&names, comp_id_mgr) {
        Err(e) => { return Err(e); },
        Ok(_) => {},
    }
    proof { lemma_none_unresolved_iff_all_resolve(views(names@), *comp_id_mgr); }
    Ok(generate_component_setup_args(manifest, network, comp_id_mgr))
}

} // verus!
