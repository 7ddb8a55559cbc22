//! The data types of algorithm indexers: what they read and what they write.

use vstd::prelude::*;
use crate::common::{
    ComponentMetadata, CycleManagements, CycleManagementsManifest, DestinationType, SourceType, Sources,
    cycle_managements_spec, cycles_or_default, cycles_of, interval_tags, yaml_str_with_configs, yaml_with_schema_spec,
};
use crate::component_ids::ComponentIdsManager;
use crate::setup::{resolve_spec, resolve_name_or_id, try_resolve_name_or_id, unresolved_message};
use crate::text::{decimal, views};
use crate::types::ComponentType;
use crate::algorithm_lens::{owned_opt, unit_result_view};

verus! {

/// The type of a value an algorithm indexer reads.
#[derive(Clone, Copy, Debug, PartialEq, Eq, Structural)]
pub enum InputType {
    U128,
    U64,
    U32,
    U16,
    U8,
    String,
}

/// A record an algorithm indexer reads: its name and its fields with their
/// types. No field name occurs twice.
#[derive(Clone, Debug)]
pub struct InputStruct {
    pub name: String,
    pub fields: Vec<(String, String)>,
}

/// How an algorithm indexer stores its results.
#[derive(Clone, Copy, Debug, PartialEq, Eq, Structural)]
pub enum AlgorithmOutputType {
    KeyValues,
    KeyValue,
}

/// A record an algorithm indexer writes: its name, its fields with their
/// types, and how it is stored. No field name occurs twice.
#[derive(Clone, Debug)]
pub struct AlgorithmIndexerOutput {
    pub name: String,
    pub fields: Vec<(String, String)>,
    pub output_type: AlgorithmOutputType,
}

impl AlgorithmIndexerOutput {
    /// The sample output of a new indexer: accounts by address.
    pub fn default() -> (res: Self)
        ensures
            res.name@ == "Account"@,
            res.fields@.len() == 1,
            res.fields@[0].0@ == "address"@,
            res.fields@[0].1@ == "String"@,
            res.output_type == AlgorithmOutputType::KeyValue,
    {
        let mut fields = Vec::new();
        fields.push((String::from_str("address"), String::from_str("String")));
        AlgorithmIndexerOutput { name: String::from_str("Account"), fields, output_type: AlgorithmOutputType::KeyValue }
    }
}

/// The kind of component an algorithm indexer reads from.
#[derive(Clone, Copy, Debug, PartialEq, Eq, Structural)]
pub enum AlgorithmInputType {
    EventIndexer,
    KeyValue,
    KeyValues,
}

/// What an algorithm indexer reads: the canister, the record it receives,
/// the block to start from, the method it calls and the kind of source.
#[derive(Clone, Debug)]
pub struct AlgorithmIndexerDatasource {
    pub principal: String,
    pub input: InputStruct,
    pub from: u64,
    pub method: String,
    pub source_type: AlgorithmInputType,
}

impl AlgorithmIndexerDatasource {
    /// The sample data source of a new indexer: the transfers an event
    /// indexer holds.
    pub fn default() -> (res: Self)
        ensures
            res.principal@ == "be2us-64aaa-aaaaa-qaabq-cai"@,
            res.input.name@ == "Transfer"@,
            res.input.fields@.len() == 3,
            res.input.fields@[0].0@ == "from"@ && res.input.fields@[0].1@ == "String"@,
            res.input.fields@[1].0@ == "to"@ && res.input.fields@[1].1@ == "String"@,
            res.input.fields@[2].0@ == "value"@ && res.input.fields@[2].1@ == "String"@,
            res.source_type == AlgorithmInputType::EventIndexer,
            res.method@ == "proxy_call"@,
            res.from == 17660942,
    {
        let mut fields = Vec::new();
        fields.push((String::from_str("from"), String::from_str("String")));
        fields.push((String::from_str("to"), String::from_str("String")));
        fields.push((String::from_str("value"), String::from_str("String")));
        AlgorithmIndexerDatasource {
            principal: String::from_str("be2us-64aaa-aaaaa-qaabq-cai"),
            input: InputStruct { name: String::from_str("Transfer"), fields },
            from: 17660942,
            method: String::from_str("proxy_call"),
            source_type: AlgorithmInputType::EventIndexer,
        }
    }
}

/// Component manifest: algorithm indexer.
#[derive(Clone, Debug)]
pub struct AlgorithmIndexerComponentManifest {
    pub id: Option<String>,
    pub version: String,
    pub metadata: ComponentMetadata,
    pub datasource: AlgorithmIndexerDatasource,
    pub output: Vec<AlgorithmIndexerOutput>,
    pub interval: u32,
    pub cycles: Option<CycleManagementsManifest>,
}

impl AlgorithmIndexerComponentManifest {
    pub fn new(
        id: &str,
        label: &str,
        description: &str,
        version: &str,
        datasource: AlgorithmIndexerDatasource,
        output: Vec<AlgorithmIndexerOutput>,
        interval: u32,
    ) -> (res: Self)
        ensures
            owned_opt(res.id) == Some(id@),
            res.version@ == version@,
            res.metadata.label@ == label@,
            res.metadata.type_ == ComponentType::AlgorithmIndexer,
            res.metadata.description@ == description@,
            res.metadata.tags matches Some(t) && views(t@) == seq!["Ethereum"@, "Account"@],
            res.datasource == datasource,
            res.output == output,
            res.interval == interval,
            res.cycles is None,
    {
        let mut tags = Vec::new();
        tags.push(String::from_str("Ethereum"));
        tags.push(String::from_str("Account"));
        assert(views(tags@) =~= seq!["Ethereum"@, "Account"@]);
        AlgorithmIndexerComponentManifest {
            id: Some(String::from_str(id)),
            version: String::from_str(version),
            metadata: ComponentMetadata {
                label: String::from_str(label),
                type_: ComponentType::AlgorithmIndexer,
                description: String::from_str(description),
                tags: Some(tags),
            },
            datasource,
            output,
            interval,
            cycles: None,
        }
    }

    pub fn component_type(&self) -> (res: ComponentType)
        ensures
            res == ComponentType::AlgorithmIndexer,
    {
        ComponentType::AlgorithmIndexer
    }

    pub fn id(&self) -> (res: Option<String>)
        ensures
            owned_opt(res) == owned_opt(self.id),
    {
        match &self.id {
            Some(s) => Some(s.clone()),
            None => None,
        }
    }

    pub fn destination_type(&self) -> (res: Option<DestinationType>)
        ensures
            res is None,
    {
        None
    }

    pub fn required_interface(&self) -> (res: Option<String>)
        ensures
            res is None,
    {
        None
    }

    /// The indexer's source: the canister it reads, with no attributes.
    pub fn get_sources(&self) -> (res: Sources)
        ensures
            res.source_type == SourceType::Chainsight,
            res.source@ == self.datasource.principal@,
            res.attributes@.len() == 0,
    {
        Sources { source_type: SourceType::Chainsight, source: self.datasource.principal.clone(), attributes: Vec::new() }
    }

    /// The tags the indexer's wasm carries: its interval.
    pub fn custom_tags(&self) -> (res: Vec<(String, String)>)
        ensures
            res@.len() == 1,
            res@[0].0@ == "chainsight:intervalSec"@,
            res@[0].1@ == decimal(self.interval as nat),
    {
        interval_tags(self.interval)
    }

    /// The cycles budget of the indexer's canisters.
    pub fn cycle_managements(&self) -> (res: CycleManagements)
        ensures
            res == cycle_managements_spec(cycles_or_default(self.cycles)),
    {
        cycles_of(&self.cycles)
    }

    /// The manifest's YAML with its schema line.
    pub fn yaml_with_schema(&self, yaml: String) -> (res: String)
        ensures
            res@ == yaml_with_schema_spec(yaml@, "algorithm_indexer"@),
    {
        yaml_str_with_configs(yaml, String::from_str("algorithm_indexer"))
    }
}

/// Checks the manifest: its type must be an algorithm indexer.
pub fn validate_manifest(manifest: &AlgorithmIndexerComponentManifest) -> (res: Result<(), String>)
    ensures
        unit_result_view(res) == (if manifest.metadata.type_ == ComponentType::AlgorithmIndexer { Ok(()) } else { Err("type is not AlgorithmIndexer"@) }),
{
    if manifest.metadata.type_ != ComponentType::AlgorithmIndexer {
        return Err(String::from_str("type is not AlgorithmIndexer"));
    }
    Ok(())
}

/// The canister id an algorithm indexer is set up to read: the principal
/// the manifest gives, or the id of the component it names. It must stand
/// for one.
pub fn setup_source_canister(manifest: &AlgorithmIndexerComponentManifest, comp_id_mgr: &ComponentIdsManager) -> (res: String)
    requires
        resolve_spec(manifest.datasource.principal@, *comp_id_mgr) is Some,
    ensures
        res@ == resolve_spec(manifest.datasource.principal@, *comp_id_mgr)->0,
{
    resolve_name_or_id(manifest.datasource.principal.as_str(), comp_id_mgr)
}

/// The canister id an algorithm indexer is set up to read, or the error that
/// the name it gives stands for none.
pub fn try_setup_source_canister(manifest: &AlgorithmIndexerComponentManifest, comp_id_mgr: &ComponentIdsManager) -> (res: Result<String, String>)
    ensures
        match resolve_spec(manifest.datasource.principal@, *comp_id_mgr) {
            Some(v) => res matches Ok(r) && r@ == v,
            None => res matches Err(e) && e@ == unresolved_message(manifest.datasource.principal@),
        },
{
    match try_resolve_name_or_id(manifest.datasource.principal.as_str(), comp_id_mgr) {
        Ok(_) => Ok(setup_source_canister(manifest, comp_id_mgr)),
        Err(e) => Err(e),
    }
}

} // verus!
