//! Snapshot indexers that take their data from an HTTPS endpoint.

use vstd::prelude::*;
use crate::algorithm_lens::owned_opt;
use crate::common::{
    ComponentMetadata, CycleManagements, CycleManagementsManifest, DestinationType, SourceType, Sources, TimerSettings,
    cycle_managements_spec, cycles_or_default, cycles_of, interval_tags, yaml_str_with_configs, yaml_with_schema_spec,
};
use crate::text::decimal;
use crate::scripts::{init_in_env_task, init_in_env_task_spec, generate_command_to_set_task, set_task_command_spec};
use crate::text::views;
use crate::types::{ComponentType, Network};

verus! {

/// The endpoint an HTTPS snapshot indexer reads: its URL, the headers it
/// sends and its query parameters.
#[derive(Clone, Debug)]
pub struct SnapshotIndexerHTTPSDataSource {
    pub url: String,
    pub headers: Vec<(String, String)>,
    pub queries: SnapshotIndexerHTTPSDataSourceQueries,
}

/// Query parameters: fixed ones, or ones computed by the component.
#[derive(Clone, Debug)]
pub enum SnapshotIndexerHTTPSDataSourceQueries {
    Static(Vec<(String, String)>),
    Dynamic,
}

pub open spec fn pair_views(v: Seq<(String, String)>) -> Seq<(Seq<char>, Seq<char>)> {
    v.map_values(|p: (String, String)| (p.0@, p.1@))
}

impl SnapshotIndexerHTTPSDataSource {
    /// The sample endpoint a new indexer starts with: the DAI price in USD.
    pub fn default() -> (res: Self)
        ensures
            res.url@ == "https://api.coingecko.com/api/v3/simple/price"@,
            pair_views(res.headers@) == seq![("Content-Type"@, "application/json"@)],
            res.queries matches SnapshotIndexerHTTPSDataSourceQueries::Static(q)
                && pair_views(q@) == seq![("ids"@, "dai"@), ("vs_currencies"@, "usd"@)],
    {
        let mut headers = Vec::new();
        headers.push((String::from_str("Content-Type"), String::from_str("application/json")));
        let mut queries = Vec::new();
        queries.push((String::from_str("ids"), String::from_str("dai")));
        queries.push((String::from_str("vs_currencies"), String::from_str("usd")));
        assert(pair_views(headers@) =~= seq![("Content-Type"@, "application/json"@)]);
        assert(pair_views(queries@) =~= seq![("ids"@, "dai"@), ("vs_currencies"@, "usd"@)]);
        SnapshotIndexerHTTPSDataSource {
            url: String::from_str("https://api.coingecko.com/api/v3/simple/price"),
            headers,
            queries: SnapshotIndexerHTTPSDataSourceQueries::Static(queries),
        }
    }
}

/// Component manifest: snapshot indexer over HTTPS.
#[derive(Clone, Debug)]
pub struct SnapshotIndexerHTTPSComponentManifest {
    pub id: Option<String>,
    pub version: String,
    pub metadata: ComponentMetadata,
    pub datasource: SnapshotIndexerHTTPSDataSource,
    pub timer_settings: TimerSettings,
    pub cycles: Option<CycleManagementsManifest>,
}

impl SnapshotIndexerHTTPSComponentManifest {
    /// The name of the function that computes dynamic query parameters.
    pub const QUERIES_FUNC_NAME: &'static str = "get_query_parameters";

    pub fn new(id: &str, label: &str, description: &str, version: &str, datasource: SnapshotIndexerHTTPSDataSource, interval: u32) -> (res: Self)
        ensures
            owned_opt(res.id) == Some(id@),
            res.version@ == version@,
            res.metadata.label@ == label@,
            res.metadata.type_ == ComponentType::SnapshotIndexerHTTPS,
            res.metadata.description@ == description@,
            res.metadata.tags matches Some(t) && views(t@) == seq!["coingecko"@, "DAI"@, "USD"@],
            res.datasource == datasource,
            res.timer_settings == (TimerSettings { interval_sec: interval, delay_sec: None, is_round_start_timing: None }),
            res.cycles is None,
    {
        let mut tags = Vec::new();
        tags.push(String::from_str("coingecko"));
        tags.push(String::from_str("DAI"));
        tags.push(String::from_str("USD"));
        assert(views(tags@) =~= seq!["coingecko"@, "DAI"@, "USD"@]);
        SnapshotIndexerHTTPSComponentManifest {
            id: Some(String::from_str(id)),
            version: String::from_str(version),
            metadata: ComponentMetadata {
                label: String::from_str(label),
                type_: ComponentType::SnapshotIndexerHTTPS,
                description: String::from_str(description),
                tags: Some(tags),
            },
            datasource,
            timer_settings: TimerSettings { interval_sec: interval, delay_sec: None, is_round_start_timing: None },
            cycles: None,
        }
    }

    pub fn cycle_managements(&self) -> (res: CycleManagements)
        ensures
            res == cycle_managements_spec(cycles_or_default(self.cycles)),
    {
        cycles_of(&self.cycles)
    }

    pub fn component_type(&self) -> (res: ComponentType)
        ensures
            res == ComponentType::SnapshotIndexerHTTPS,
    {
        ComponentType::SnapshotIndexerHTTPS
    }

    pub fn id(&self) -> (res: Option<String>)
        ensures
            owned_opt(res) == owned_opt(self.id),
    {
        match &self.id {
            Some(s) => Some(s.clone()),
            None => None,
        }
    }

    pub fn destination_type(&self) -> (res: Option<DestinationType>)
        ensures
            res is None,
    {
        None
    }

    pub fn required_interface(&self) -> (res: Option<String>)
        ensures
            res is None,
    {
        None
    }

    /// The indexer's source: the URL it reads, with no attributes.
    pub fn get_sources(&self) -> (res: Sources)
        ensures
            res.source_type == SourceType::Https,
            res.source@ == self.datasource.url@,
            res.attributes@.len() == 0,
    {
        Sources { source_type: SourceType::Https, source: self.datasource.url.clone(), attributes: Vec::new() }
    }

    /// The tags the indexer's wasm carries: its interval.
    pub fn custom_tags(&self) -> (res: Vec<(String, String)>)
        ensures
            res@.len() == 1,
            res@[0].0@ == "chainsight:intervalSec"@,
            res@[0].1@ == decimal(self.timer_settings.interval_sec as nat),
    {
        interval_tags(self.timer_settings.interval_sec)
    }

    pub fn timer_settings(&self) -> (res: Option<TimerSettings>)
        ensures
            res == Some(self.timer_settings),
    {
        Some(self.timer_settings)
    }

    /// Checks the manifest; every HTTPS indexer manifest is accepted.
    pub fn validate_manifest(&self) -> (res: Result<(), String>)
        ensures
            res is Ok,
    {
        Ok(())
    }

    /// The manifest's YAML with its schema line.
    pub fn yaml_with_schema(&self, yaml: String) -> (res: String)
        ensures
            res@ == yaml_with_schema_spec(yaml@, "snapshot_indexer_https"@),
    {
        yaml_str_with_configs(yaml, String::from_str("snapshot_indexer_https"))
    }
}

/// The generator of an HTTPS snapshot indexer's code.
#[derive(Debug)]
pub struct SnapshotIndesxerHTTPSCodeGenerator {
    pub manifest: SnapshotIndexerHTTPSComponentManifest,
}

impl SnapshotIndesxerHTTPSCodeGenerator {
    pub fn new(manifest: SnapshotIndexerHTTPSComponentManifest) -> (res: Self)
        ensures
            res.manifest == manifest,
    {
        SnapshotIndesxerHTTPSCodeGenerator { manifest }
    }
}

/// The script that initialises the indexer and starts its task.
pub open spec fn script_contents_spec(id: Seq<char>, network: Network, timer: TimerSettings, cycles: CycleManagements) -> Seq<char> {
    "#!/bin/bash\n# init\n"@ + init_in_env_task_spec(network, id, cycles) + "\n# set_task\n"@
        + set_task_command_spec(id, network, timer) + "\n"@
}

/// The setup script of an HTTPS snapshot indexer, if the manifest is one. The
/// manifest must carry its id.
pub fn generate_scripts(manifest: &SnapshotIndexerHTTPSComponentManifest, network: Network) -> (res: Result<String, String>)
    requires
        manifest.id is Some,
        manifest.metadata.type_ == ComponentType::SnapshotIndexerHTTPS ==>
            cycle_managements_spec(cycles_or_default(manifest.cycles)).initial_supply_spec() <= u128::MAX,
    ensures
        manifest.metadata.type_ != ComponentType::SnapshotIndexerHTTPS ==> (res matches Err(e) && e@ == "type is not SnapshotIndexerHTTPS"@),
        manifest.metadata.type_ == ComponentType::SnapshotIndexerHTTPS ==> (res matches Ok(s) && s@ == script_contents_spec(
            manifest.id->0@,
            network,
            manifest.timer_settings,
            cycle_managements_spec(cycles_or_default(manifest.cycles)),
        )),
{
    if manifest.metadata.type_ != ComponentType::SnapshotIndexerHTTPS {
        return Err(String::from_str("type is not SnapshotIndexerHTTPS"));
    }
    let id = match &manifest.id {
        Some(id) => id,
        None => { return Err(String::new()); },
    };
    let set_task = generate_command_to_set_task(id.as_str(), &network, &manifest.timer_settings);
    let cycles = manifest.cycle_managements();
    let init = init_in_env_task(&network, id.as_str(), &cycles);
    let mut res = String::from_str("#!/bin/bash\n# init\n");
    res.append(init.as_str());
    res.append("\n# set_task\n");
    res.append(set_task.as_str());
    res.append("\n");
    Ok(res)
}

} // verus!
