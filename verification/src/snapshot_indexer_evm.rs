//! Snapshot indexers that call a view function of an EVM contract.

use vstd::prelude::*;
use crate::common::{
    AttributeValue, ComponentMetadata, CycleManagements, CycleManagementsManifest, DatasourceMethod, DestinationType,
    SourceType, Sources, TimerSettings, cycle_managements_spec, cycles_or_default, cycles_of, function_name_of,
    function_name_spec, interval_tags, yaml_str_with_configs, yaml_with_schema_spec,
};
use crate::rpc_url::{is_supporting_ipv6_url, url_precheck_spec, ipv6_verdict_spec, unit_view};
use crate::text::{decimal, views};
use crate::types::{ComponentType, Network};
use crate::setup::{Web3CtxParam, web3_ctx_param, sdk_env_of};
use crate::algorithm_lens::{owned_opt, unit_result_view};

verus! {

/// The contract a snapshot indexer calls and the chain it lives on.
#[derive(Clone, Debug)]
pub struct SnapshotIndexerEVMDatasourceLocation {
    pub id: String,
    pub args: SnapshotIndexerEVMDatasourceLocationArgs,
}

/// The chain id and RPC endpoint of the contract's chain.
#[derive(Clone, Debug)]
pub struct SnapshotIndexerEVMDatasourceLocationArgs {
    pub network_id: u32,
    pub rpc_url: String,
}

impl SnapshotIndexerEVMDatasourceLocation {
    pub fn new(id: String, network_id: u32, rpc_url: String) -> (res: Self)
        ensures
            res.id == id,
            res.args.network_id == network_id,
            res.args.rpc_url == rpc_url,
    {
        SnapshotIndexerEVMDatasourceLocation {
            id,
            args: SnapshotIndexerEVMDatasourceLocationArgs { network_id, rpc_url },
        }
    }
}

/// The contract and the view function an indexer calls.
#[derive(Clone, Debug)]
pub struct SnapshotIndexerEVMDatasource {
    pub location: SnapshotIndexerEVMDatasourceLocation,
    pub method: DatasourceMethod,
}

impl Default for SnapshotIndexerEVMDatasource {
    /// The sample data source a new indexer starts with: the total supply
    /// of DAI on Ethereum mainnet.
    fn default() -> (res: Self)
        ensures
            res.location.id@ == "6b175474e89094c44da98b954eedeac495271d0f"@,
            res.location.args.network_id == 1,
            res.location.args.rpc_url@ == "https://mainnet.infura.io/v3/${INFURA_MAINNET_RPC_URL_KEY}"@,
            res.method.identifier@ == "totalSupply():(uint256)"@,
            owned_opt(res.method.interface) == Some("ERC20.json"@),
            res.method.args@.len() == 0,
    {
        SnapshotIndexerEVMDatasource {
            location: SnapshotIndexerEVMDatasourceLocation::new(
                String::from_str("6b175474e89094c44da98b954eedeac495271d0f"),
                1,
                String::from_str("https://mainnet.infura.io/v3/${INFURA_MAINNET_RPC_URL_KEY}"),
            ),
            method: DatasourceMethod {
                identifier: String::from_str("totalSupply():(uint256)"),
                interface: Some(String::from_str("ERC20.json")),
                args: Vec::new(),
            },
        }
    }
}

/// Component manifest: snapshot indexer reading an EVM contract.
#[derive(Clone, Debug)]
pub struct SnapshotIndexerEVMComponentManifest {
    pub id: Option<String>,
    pub version: String,
    pub metadata: ComponentMetadata,
    pub datasource: SnapshotIndexerEVMDatasource,
    pub timer_settings: TimerSettings,
    pub cycles: Option<CycleManagementsManifest>,
}

impl SnapshotIndexerEVMComponentManifest {
    pub fn new(id: &str, label: &str, description: &str, version: &str, datasource: SnapshotIndexerEVMDatasource, interval: u32) -> (res: Self)
        ensures
            owned_opt(res.id) == Some(id@),
            res.version@ == version@,
            res.metadata.label@ == label@,
            res.metadata.type_ == ComponentType::SnapshotIndexerEVM,
            res.metadata.description@ == description@,
            res.metadata.tags matches Some(t) && views(t@) == seq!["ERC-20"@, "Ethereum"@, "DAI"@],
            res.datasource == datasource,
            res.timer_settings.interval_sec == interval,
            res.timer_settings.delay_sec is None,
            res.timer_settings.is_round_start_timing is None,
            res.cycles is None,
    {
        let mut tags = Vec::new();
        tags.push(String::from_str("ERC-20"));
        tags.push(String::from_str("Ethereum"));
        tags.push(String::from_str("DAI"));
        assert(views(tags@) =~= seq!["ERC-20"@, "Ethereum"@, "DAI"@]);
        SnapshotIndexerEVMComponentManifest {
            id: Some(String::from_str(id)),
            version: String::from_str(version),
            metadata: ComponentMetadata {
                label: String::from_str(label),
                type_: ComponentType::SnapshotIndexerEVM,
                description: String::from_str(description),
                tags: Some(tags),
            },
            datasource,
            timer_settings: TimerSettings { interval_sec: interval, delay_sec: None, is_round_start_timing: None },
            cycles: None,
        }
    }

    pub fn component_type(&self) -> (res: ComponentType)
        ensures
            res == ComponentType::SnapshotIndexerEVM,
    {
        ComponentType::SnapshotIndexerEVM
    }

    pub fn id(&self) -> (res: Option<String>)
        ensures
            owned_opt(res) == owned_opt(self.id),
    {
        match &self.id {
            Some(s) => Some(s.clone()),
            None => None,
        }
    }

    pub fn destination_type(&self) -> (res: Option<DestinationType>)
        ensures
            res is None,
    {
        None
    }

    /// The ABI file the indexer needs: the one its method names.
    pub fn required_interface(&self) -> (res: Option<String>)
        ensures
            owned_opt(res) == owned_opt(self.datasource.method.interface),
    {
        match &self.datasource.method.interface {
            Some(i) => Some(i.clone()),
            None => None,
        }
    }

    /// The indexer's source: the contract and the function it calls.
    pub fn get_sources(&self) -> (res: Sources)
        ensures
            res.source_type == SourceType::Evm,
            res.source@ == self.datasource.location.id@,
            res.attributes@.len() == 1,
            res.attributes@[0].0@ == "function_name"@,
            res.attributes@[0].1 matches AttributeValue::Text(f) && f@ == function_name_spec(self.datasource.method.identifier@),
    {
        let name = function_name_of(self.datasource.method.identifier.as_str());
        let mut attributes = Vec::new();
        attributes.push((String::from_str("function_name"), AttributeValue::Text(name)));
        Sources { source_type: SourceType::Evm, source: self.datasource.location.id.clone(), attributes }
    }

    /// The tags the indexer's wasm carries: its interval.
    pub fn custom_tags(&self) -> (res: Vec<(String, String)>)
        ensures
            res@.len() == 1,
            res@[0].0@ == "chainsight:intervalSec"@,
            res@[0].1@ == decimal(self.timer_settings.interval_sec as nat),
    {
        interval_tags(self.timer_settings.interval_sec)
    }

    /// The cycles budget of the indexer's canisters.
    pub fn cycle_managements(&self) -> (res: CycleManagements)
        ensures
            res == cycle_managements_spec(cycles_or_default(self.cycles)),
    {
        cycles_of(&self.cycles)
    }

    pub fn timer_settings(&self) -> (res: Option<TimerSettings>)
        ensures
            res == Some(self.timer_settings),
    {
        Some(self.timer_settings)
    }

    /// The manifest's YAML with its schema line.
    pub fn yaml_with_schema(&self, yaml: String) -> (res: String)
        ensures
            res@ == yaml_with_schema_spec(yaml@, "snapshot_indexer_evm"@),
    {
        yaml_str_with_configs(yaml, String::from_str("snapshot_indexer_evm"))
    }
}

/// Checks the manifest: its type must be a snapshot indexer of a contract,
/// and its RPC endpoint callable from the Internet Computer (HTTPS, over
/// IPv6). Whether the endpoint answers a request is checked by the caller,
/// which can reach it.
pub fn validate_manifest(manifest: &SnapshotIndexerEVMComponentManifest) -> (res: Result<(), String>)
    ensures
        manifest.metadata.type_ != ComponentType::SnapshotIndexerEVM ==> unit_result_view(res) == Err::<(), Seq<char>>("type is not SnapshotIndexerEVM"@),
        manifest.metadata.type_ == ComponentType::SnapshotIndexerEVM ==> match url_precheck_spec(manifest.datasource.location.args.rpc_url@) {
            Err(e) => unit_result_view(res) == Err::<(), Seq<char>>(e),
            Ok(None) => res is Ok,
            Ok(Some(_)) => exists|lookup: Result<Seq<bool>, Seq<char>>| unit_view(res) == ipv6_verdict_spec(lookup),
        },
{
    if manifest.metadata.type_ != ComponentType::SnapshotIndexerEVM {
        return Err(String::from_str("type is not SnapshotIndexerEVM"));
    }
    is_supporting_ipv6_url(manifest.datasource.location.args.rpc_url.as_str())
}

/// What an EVM snapshot indexer's setup call is made with: the contract it
/// calls and the connection to the contract's chain.
pub fn generate_component_setup_args(manifest: &SnapshotIndexerEVMComponentManifest, network: &Network) -> (res: (String, Web3CtxParam))
    ensures
        res.0@ == manifest.datasource.location.id@,
        res.1.url@ == manifest.datasource.location.args.rpc_url@,
        res.1.from is None,
        res.1.chain_id == manifest.datasource.location.args.network_id,
        res.1.env == sdk_env_of(*network),
{
    let args = &manifest.datasource.location.args;
    (manifest.datasource.location.id.clone(), web3_ctx_param(args.rpc_url.as_str(), args.network_id as u64, network))
}

} // verus!
