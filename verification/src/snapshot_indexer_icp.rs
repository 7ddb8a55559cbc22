//! Snapshot indexers that periodically call a method of another canister,
//! possibly of a lens, and keep what it returns.

use vstd::prelude::*;
use crate::common::{
    AttributeValue, ComponentMetadata, CycleManagements, CycleManagementsManifest, DatasourceForCanister,
    DestinationType, LensTargets, SourceType, Sources, TimerSettings, cycle_managements_spec, cycles_or_default,
    cycles_of, function_name_of, function_name_spec, interval_tags, yaml_str_with_configs, yaml_with_schema_spec,
};
use crate::component_ids::ComponentIdsManager;
use crate::relayer::{clone_strings, lens_target_ids};
use crate::setup::{
    resolve_spec, resolve_name_or_id, try_resolve_name_or_id, resolve_all, try_resolve_all, resolve_all_spec,
    all_resolve, first_unresolved, unresolved_message, candid_one_text, candid_text_and_texts, encode_one_text,
    encode_text_and_texts,
};
use crate::text::{decimal, views};
use crate::types::ComponentType;
use crate::algorithm_lens::{owned_opt, unit_result_view};

verus! {

/// Component manifest: snapshot indexer reading a canister.
#[derive(Clone, Debug)]
pub struct SnapshotIndexerICPComponentManifest {
    pub id: Option<String>,
    pub version: String,
    pub metadata: ComponentMetadata,
    pub datasource: DatasourceForCanister,
    pub is_target_component: Option<bool>,
    pub lens_targets: Option<LensTargets>,
    pub timer_settings: TimerSettings,
    pub cycles: Option<CycleManagementsManifest>,
}

impl SnapshotIndexerICPComponentManifest {
    pub fn new(id: &str, label: &str, description: &str, version: &str, datasource: DatasourceForCanister, interval: u32) -> (res: Self)
        ensures
            owned_opt(res.id) == Some(id@),
            res.version@ == version@,
            res.metadata.label@ == label@,
            res.metadata.type_ == ComponentType::SnapshotIndexerICP,
            res.metadata.description@ == description@,
            res.metadata.tags matches Some(t) && views(t@) == seq!["ERC-20"@, "Ethereum"@, "DAI"@],
            res.datasource == datasource,
            res.timer_settings.interval_sec == interval,
            res.timer_settings.delay_sec is None,
            res.timer_settings.is_round_start_timing is None,
            res.is_target_component is None,
            res.lens_targets is None,
            res.cycles is None,
    {
        let mut tags = Vec::new();
        tags.push(String::from_str("ERC-20"));
        tags.push(String::from_str("Ethereum"));
        tags.push(String::from_str("DAI"));
        assert(views(tags@) =~= seq!["ERC-20"@, "Ethereum"@, "DAI"@]);
        SnapshotIndexerICPComponentManifest {
            id: Some(String::from_str(id)),
            version: String::from_str(version),
            metadata: ComponentMetadata {
                label: String::from_str(label),
                type_: ComponentType::SnapshotIndexerICP,
                description: String::from_str(description),
                tags: Some(tags),
            },
            datasource,
            is_target_component: None,
            lens_targets: None,
            timer_settings: TimerSettings { interval_sec: interval, delay_sec: None, is_round_start_timing: None },
            cycles: None,
        }
    }

    pub fn component_type(&self) -> (res: ComponentType)
        ensures
            res == ComponentType::SnapshotIndexerICP,
    {
        ComponentType::SnapshotIndexerICP
    }

    pub fn id(&self) -> (res: Option<String>)
        ensures
            owned_opt(res) == owned_opt(self.id),
    {
        match &self.id {
            Some(s) => Some(s.clone()),
            None => None,
        }
    }

    pub fn destination_type(&self) -> (res: Option<DestinationType>)
        ensures
            res is None,
    {
        None
    }

    pub fn required_interface(&self) -> (res: Option<String>)
        ensures
            res is None,
    {
        None
    }

    /// The indexer's source: the canister it reads, the function it calls
    /// and, behind a lens, the lens's targets.
    pub fn get_sources(&self) -> (res: Sources)
        ensures
            res.source_type == SourceType::Chainsight,
            res.source@ == self.datasource.location.id@,
            match self.lens_targets {
                Some(t) => res.attributes@.len() == 2
                    && res.attributes@[0].0@ == "sources"@
                    && (res.attributes@[0].1 matches AttributeValue::TextList(l) && views(l@) == views(t.identifiers@))
                    && res.attributes@[1].0@ == "function_name"@
                    && (res.attributes@[1].1 matches AttributeValue::Text(f) && f@ == function_name_spec(self.datasource.method.identifier@)),
                None => res.attributes@.len() == 1
                    && res.attributes@[0].0@ == "function_name"@
                    && (res.attributes@[0].1 matches AttributeValue::Text(f) && f@ == function_name_spec(self.datasource.method.identifier@)),
            },
    {
        let mut attributes = Vec::new();
        match &self.lens_targets {
            Some(t) => {
                attributes.push((String::from_str("sources"), AttributeValue::TextList(clone_strings(&t.identifiers))));
            },
            None => {},
        }
        let name = function_name_of(self.datasource.method.identifier.as_str());
        attributes.push((String::from_str("function_name"), AttributeValue::Text(name)));
        Sources { source_type: SourceType::Chainsight, source: self.datasource.location.id.clone(), attributes }
    }

    /// The tags the indexer's wasm carries: its interval.
    pub fn custom_tags(&self) -> (res: Vec<(String, String)>)
        ensures
            res@.len() == 1,
            res@[0].0@ == "chainsight:intervalSec"@,
            res@[0].1@ == decimal(self.timer_settings.interval_sec as nat),
    {
        interval_tags(self.timer_settings.interval_sec)
    }

    /// The cycles budget of the indexer's canisters.
    pub fn cycle_managements(&self) -> (res: CycleManagements)
        ensures
            res == cycle_managements_spec(cycles_or_default(self.cycles)),
    {
        cycles_of(&self.cycles)
    }

    pub fn timer_settings(&self) -> (res: Option<TimerSettings>)
        ensures
            res == Some(self.timer_settings),
    {
        Some(self.timer_settings)
    }

    /// The manifest's YAML with its schema line.
    pub fn yaml_with_schema(&self, yaml: String) -> (res: String)
        ensures
            res@ == yaml_with_schema_spec(yaml@, "snapshot_indexer_icp"@),
    {
        yaml_str_with_configs(yaml, String::from_str("snapshot_indexer_icp"))
    }
}

/// Checks the manifest: its type must be a snapshot indexer of a canister.
pub fn validate_manifest(manifest: &SnapshotIndexerICPComponentManifest) -> (res: Result<(), String>)
    ensures
        unit_result_view(res) == (if manifest.metadata.type_ == ComponentType::SnapshotIndexerICP { Ok(()) } else { Err("type is not SnapshotIndexerICP"@) }),
{
    if manifest.metadata.type_ != ComponentType::SnapshotIndexerICP {
        return Err(String::from_str("type is not SnapshotIndexerICP"));
    }
    Ok(())
}

/// What the setup call of an indexer is made with: the canister it reads
/// and, where it reads through a lens, the lens's targets, each resolved to
/// a canister id.
pub open spec fn setup_arg_bytes(m: SnapshotIndexerICPComponentManifest, mgr: ComponentIdsManager) -> Seq<u8> {
    let target = resolve_spec(m.datasource.location.id@, mgr)->0;
    let lens = lens_target_ids(m.lens_targets);
    if lens.len() == 0 {
        candid_one_text(target)
    } else {
        candid_text_and_texts(target, resolve_all_spec(lens, mgr))
    }
}

/// The candid arguments of the indexer's setup call. The canister it reads
/// and each lens target must stand for an id.
pub fn generate_component_setup_args(manifest: &SnapshotIndexerICPComponentManifest, comp_id_mgr: &ComponentIdsManager) -> (res: Option<Vec<u8>>)
    requires
        resolve_spec(manifest.datasource.location.id@, *comp_id_mgr) is Some,
        all_resolve(lens_target_ids(manifest.lens_targets), *comp_id_mgr),
    ensures
        res matches Some(b) && b@ == setup_arg_bytes(*manifest, *comp_id_mgr),
{
    let target_canister = resolve_name_or_id(manifest.datasource.location.id.as_str(), comp_id_mgr);
    let names = match &manifest.lens_targets {
        Some(t) => clone_strings(&t.identifiers),
        None => Vec::new(),
    };
    assert(views(names@) =~= lens_target_ids(manifest.lens_targets));
    if names.len() == 0 {
        encode_one_text(target_canister.as_str())
    } else {
        let lens_targets = resolve_all(&names, comp_id_mgr);
        encode_text_and_texts(target_canister.as_str(), &lens_targets)
    }
}

/// Why the setup arguments of an indexer could not be made.
pub open spec fn setup_args_error(m: SnapshotIndexerICPComponentManifest, mgr: ComponentIdsManager) -> Option<Seq<char>> {
    if resolve_spec(m.datasource.location.id@, mgr) is None {
        Some(unresolved_message(m.datasource.location.id@))
    } else {
        match first_unresolved(lens_target_ids(m.lens_targets), mgr) {
            Some(n) => Some(unresolved_message(n)),
            None => None,
        }
    }
}

/// The candid arguments of the indexer's setup call, or the error for the
/// first name that stands for no canister id.
pub fn try_generate_component_setup_args(manifest: &SnapshotIndexerICPComponentManifest, comp_id_mgr: &ComponentIdsManager) -> (res: Result<Option<Vec<u8>>, String>)
    ensures
        match setup_args_error(*manifest, *comp_id_mgr) {
            Some(e) => res matches Err(r) && r@ == e,
            None => res matches Ok(o) && (o matches Some(b) && b@ == setup_arg_bytes(*manifest, *comp_id_mgr)),
        },
{
    match try_resolve_name_or_id(manifest.datasource.location.id.as_str(), comp_id_mgr) {
        Err(e) => { return Err(e); },
        Ok(_) => {},
    }
    let names = match &manifest.lens_targets {
        Some(t) => clone_strings(&t.identifiers),
        None => Vec::new(),
    };
    assert(views(names@) =~= lens_target_ids(manifest.lens_targets));
    match try_resolve_all(&names, comp_id_mgr) {
        Err(e) => { return Err(e); },
        Ok(_) => {},
    }
    proof { crate::setup::lemma_none_unresolved_iff_all_resolve(views(names@), *comp_id_mgr); }
    Ok(generate_component_setup_args(manifest, comp_id_mgr))
}

} // verus!
