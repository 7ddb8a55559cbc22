//! Event indexer components: they follow the events of an EVM contract.

use vstd::prelude::*;
use crate::algorithm_lens::owned_opt;
use crate::common::{
    AttributeValue, ComponentMetadata, DestinationType, SourceType, Sources, interval_tags, yaml_str_with_configs,
    yaml_with_schema_spec,
};
use crate::text::{decimal, views, replace_all, replace_str};
use crate::types::ComponentType;

verus! {

/// Component manifest: event indexer.
#[derive(Clone, Debug)]
pub struct EventIndexerComponentManifest {
    pub id: Option<String>,
    pub version: String,
    pub metadata: ComponentMetadata,
    pub datasource: EventIndexerDatasource,
    pub interval: u32,
}

/// The contract an event indexer follows, the event, the chain and the block
/// to start from.
#[derive(Clone, Debug)]
pub struct EventIndexerDatasource {
    pub id: String,
    pub event: EventIndexerEventDefinition,
    pub network: SourceNetwork,
    pub from: u64,
    pub contract_type: Option<String>,
}

/// The chain an event indexer reads: its RPC endpoint and chain id.
#[derive(Clone, Debug)]
pub struct SourceNetwork {
    pub rpc_url: String,
    pub chain_id: u64,
}

/// The event to follow and the ABI file that declares it.
#[derive(Clone, Debug)]
pub struct EventIndexerEventDefinition {
    pub identifier: String,
    pub interface: Option<String>,
}

impl EventIndexerEventDefinition {
    pub fn new(identifier: String, interface: Option<String>) -> (res: Self)
        ensures
            res.identifier == identifier,
            res.interface == interface,
    {
        EventIndexerEventDefinition { identifier, interface }
    }
}

impl EventIndexerDatasource {
    pub fn new(id: String, event: EventIndexerEventDefinition, network: SourceNetwork, from: u64, contract_type: Option<String>) -> (res: Self)
        ensures
            res.id == id,
            res.event == event,
            res.network == network,
            res.from == from,
            res.contract_type == contract_type,
    {
        EventIndexerDatasource { id, event, network, from, contract_type }
    }

    /// The sample data source a new indexer starts with: DAI transfers on
    /// Ethereum mainnet.
    pub fn default() -> (res: Self)
        ensures
            res.id@ == "0x6B175474E89094C44Da98b954EedeAC495271d0F"@,
            res.event.identifier@ == "Transfer"@,
            owned_opt(res.event.interface) == Some("ERC20.json"@),
            res.network.rpc_url@ == "https://mainnet.infura.io/v3/${INFURA_MAINNET_RPC_URL_KEY}"@,
            res.network.chain_id == 1,
            res.from == 17660942,
            owned_opt(res.contract_type) == Some("ERC-20"@),
    {
        EventIndexerDatasource {
            id: String::from_str("0x6B175474E89094C44Da98b954EedeAC495271d0F"),
            event: EventIndexerEventDefinition::new(String::from_str("Transfer"), Some(String::from_str("ERC20.json"))),
            network: SourceNetwork {
                rpc_url: String::from_str("https://mainnet.infura.io/v3/${INFURA_MAINNET_RPC_URL_KEY}"),
                chain_id: 1,
            },
            from: 17660942,
            contract_type: Some(String::from_str("ERC-20")),
        }
    }
}

impl EventIndexerComponentManifest {
    pub fn new(id: &str, label: &str, description: &str, version: &str, datasource: EventIndexerDatasource, interval: u32) -> (res: Self)
        ensures
            owned_opt(res.id) == Some(id@),
            res.version@ == version@,
            res.metadata.label@ == label@,
            res.metadata.type_ == ComponentType::EventIndexer,
            res.metadata.description@ == description@,
            res.metadata.tags matches Some(t) && views(t@) == seq!["Ethereum"@, "ERC-20"@, "Transfer"@],
            res.datasource == datasource,
            res.interval == interval,
    {
        let mut tags = Vec::new();
        tags.push(String::from_str("Ethereum"));
        tags.push(String::from_str("ERC-20"));
        tags.push(String::from_str("Transfer"));
        assert(views(tags@) =~= seq!["Ethereum"@, "ERC-20"@, "Transfer"@]);
        EventIndexerComponentManifest {
            id: Some(String::from_str(id)),
            version: String::from_str(version),
            metadata: ComponentMetadata {
                label: String::from_str(label),
                type_: ComponentType::EventIndexer,
                description: String::from_str(description),
                tags: Some(tags),
            },
            datasource,
            interval,
        }
    }
}

/// What checking an event indexer manifest answers: the type must be an
/// event indexer and the event's ABI file must be named.
pub open spec fn validate_manifest_spec(m: EventIndexerComponentManifest) -> Result<(), Seq<char>> {
    if m.metadata.type_ != ComponentType::EventIndexer {
        Err("type is not EventIndexer"@)
    } else if m.datasource.event.interface is None {
        Err("datasource.event.interface is not set"@)
    } else {
        Ok(())
    }
}

/// Checks an event indexer manifest.
pub fn validate_manifest(manifest: &EventIndexerComponentManifest) -> (res: Result<(), String>)
    ensures
        crate::algorithm_lens::unit_result_view(res) == validate_manifest_spec(*manifest),
{
    if manifest.metadata.type_ != ComponentType::EventIndexer {
        return Err(String::from_str("type is not EventIndexer"));
    }
    if manifest.datasource.event.interface.is_none() {
        return Err(String::from_str("datasource.event.interface is not set"));
    }
    Ok(())
}

/// The kind of contract an event indexer reads: the one the manifest names,
/// else the name of its ABI file without `.json`.
pub open spec fn contract_type_spec(d: EventIndexerDatasource) -> Seq<char> {
    match d.contract_type {
        Some(t) => t@,
        None => replace_all(d.event.interface->0@, ".json"@, ""@),
    }
}

impl EventIndexerComponentManifest {
    pub fn component_type(&self) -> (res: ComponentType)
        ensures
            res == ComponentType::EventIndexer,
    {
        ComponentType::EventIndexer
    }

    pub fn id(&self) -> (res: Option<String>)
        ensures
            owned_opt(res) == owned_opt(self.id),
    {
        match &self.id {
            Some(s) => Some(s.clone()),
            None => None,
        }
    }

    pub fn destination_type(&self) -> (res: Option<DestinationType>)
        ensures
            res is None,
    {
        None
    }

    /// The ABI file the indexer needs: the one its event names.
    pub fn required_interface(&self) -> (res: Option<String>)
        ensures
            owned_opt(res) == owned_opt(self.datasource.event.interface),
    {
        match &self.datasource.event.interface {
            Some(i) => Some(i.clone()),
            None => None,
        }
    }

    /// The tags the indexer's wasm carries: its interval.
    pub fn custom_tags(&self) -> (res: Vec<(String, String)>)
        ensures
            res@.len() == 1,
            res@[0].0@ == "chainsight:intervalSec"@,
            res@[0].1@ == decimal(self.interval as nat),
    {
        interval_tags(self.interval)
    }

    /// The indexer's source: the contract, with the chain, the event and the
    /// kind of contract. The manifest must name the contract's kind or its
    /// ABI file.
    pub fn get_sources(&self) -> (res: Sources)
        requires
            self.datasource.contract_type is Some || self.datasource.event.interface is Some,
        ensures
            res.source_type == SourceType::Evm,
            res.source@ == self.datasource.id@,
            res.attributes@.len() == 3,
            res.attributes@[0].0@ == "chain_id"@,
            res.attributes@[0].1 == AttributeValue::Number(self.datasource.network.chain_id),
            res.attributes@[1].0@ == "event_name"@,
            res.attributes@[1].1 matches AttributeValue::Text(e) && e@ == self.datasource.event.identifier@,
            res.attributes@[2].0@ == "contract_type"@,
            res.attributes@[2].1 matches AttributeValue::Text(c) && c@ == contract_type_spec(self.datasource),
    {
        let contract_type = match &self.datasource.contract_type {
            Some(t) => t.clone(),
            None => match &self.datasource.event.interface {
                Some(i) => {
                    proof { reveal_strlit(".json"); }
                    replace_str(i.as_str(), ".json", "")
                },
                None => String::new(),
            },
        };
        let mut attributes = Vec::new();
        attributes.push((String::from_str("chain_id"), AttributeValue::Number(self.datasource.network.chain_id)));
        attributes.push((String::from_str("event_name"), AttributeValue::Text(self.datasource.event.identifier.clone())));
        attributes.push((String::from_str("contract_type"), AttributeValue::Text(contract_type)));
        Sources { source_type: SourceType::Evm, source: self.datasource.id.clone(), attributes }
    }

    /// The manifest's YAML with its schema line.
    pub fn yaml_with_schema(&self, yaml: String) -> (res: String)
        ensures
            res@ == yaml_with_schema_spec(yaml@, "event_indexer"@),
    {
        yaml_str_with_configs(yaml, String::from_str("event_indexer"))
    }
}

} // verus!
