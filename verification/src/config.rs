//! The configuration each kind of component hands to the generator of its
//! canister code, as derived from its manifest.

use vstd::prelude::*;
use crate::algorithm_indexer::{AlgorithmIndexerComponentManifest, AlgorithmInputType};
use crate::algorithm_lens::owned_opt;
use crate::relayer::{RelayerComponentManifest, RelayerConversionParameter, abi_file_path_spec, relay_method_name_spec};
use crate::snapshot_indexer_evm::SnapshotIndexerEVMComponentManifest;
use crate::snapshot_indexer_https::{
    SnapshotIndexerHTTPSComponentManifest, SnapshotIndexerHTTPSDataSourceQueries, pair_views,
};
use crate::snapshot_indexer_icp::SnapshotIndexerICPComponentManifest;
use crate::common::DestinationType;

verus! {

/// What every component's configuration holds: the name of its canister.
#[derive(Clone, Debug)]
pub struct CommonConfig {
    pub canister_name: String,
}

/// How a component calls a lens: whether the lens takes arguments.
#[derive(Clone, Copy, Debug, PartialEq, Eq, Structural)]
pub struct LensParameter {
    pub with_args: bool,
}

/// The lens parameter of a component: present exactly when it reads through
/// a lens.
pub open spec fn lens_parameter_spec(has_lens_targets: bool, lens_with_args: bool) -> Option<LensParameter> {
    if has_lens_targets { Some(LensParameter { with_args: lens_with_args }) } else { None }
}

/// The configuration of a relayer's canister.
#[derive(Clone, Debug)]
pub struct RelayerConfig {
    pub common: CommonConfig,
    pub method_identifier: String,
    pub destination: String,
    pub abi_file_path: String,
    pub method_name: String,
    pub lens_parameter: Option<LensParameter>,
    pub conversion_parameter: Option<RelayerConversionParameter>,
}

impl RelayerConfig {
    /// The configuration of a relayer; `lens_with_args` tells whether the
    /// lens it reads through, if any, takes arguments. The manifest must
    /// carry its id, and a custom destination must name its interface and
    /// method.
    pub fn from_manifest(val: RelayerComponentManifest, lens_with_args: bool) -> (res: RelayerConfig)
        requires
            val.id is Some,
            val.destination.type_ == DestinationType::Custom ==>
                val.destination.interface is Some && val.destination.method_name is Some,
        ensures
            Some(res.common.canister_name@) == owned_opt(val.id),
            res.method_identifier@ == val.datasource.method.identifier@,
            res.destination@ == val.destination.oracle_address@,
            res.abi_file_path@ == abi_file_path_spec(val.destination),
            res.method_name@ == relay_method_name_spec(val.destination),
            res.lens_parameter == lens_parameter_spec(val.lens_targets is Some, lens_with_args),
            res.conversion_parameter == val.conversion_parameter,
    {
        let abi_file_path = val.abi_file_path();
        let method_name = val.relay_method_name();
        let lens_parameter = if val.lens_targets.is_some() { Some(LensParameter { with_args: lens_with_args }) } else { None };
        let canister_name = match val.id {
            Some(id) => id,
            None => String::new(),
        };
        RelayerConfig {
            common: CommonConfig { canister_name },
            method_identifier: val.datasource.method.identifier,
            destination: val.destination.oracle_address,
            abi_file_path,
            method_name,
            lens_parameter,
            conversion_parameter: val.conversion_parameter,
        }
    }
}

/// The configuration of the canister of a snapshot indexer reading a
/// canister.
#[derive(Clone, Debug)]
pub struct SnapshotIndexerICPConfig {
    pub common: CommonConfig,
    pub method_identifier: String,
    pub is_target_component: bool,
    pub lens_parameter: Option<LensParameter>,
}

impl SnapshotIndexerICPConfig {
    /// The configuration of the indexer; `lens_with_args` tells whether the
    /// lens it reads through, if any, takes arguments. Unless the manifest
    /// says otherwise, the canister it reads is a component of the platform.
    /// The manifest must carry its id.
    pub fn from_manifest(val: SnapshotIndexerICPComponentManifest, lens_with_args: bool) -> (res: SnapshotIndexerICPConfig)
        requires
            val.id is Some,
        ensures
            Some(res.common.canister_name@) == owned_opt(val.id),
            res.method_identifier@ == val.datasource.method.identifier@,
            res.is_target_component == (match val.is_target_component { Some(b) => b, None => true }),
            res.lens_parameter == lens_parameter_spec(val.lens_targets is Some, lens_with_args),
    {
        let lens_parameter = if val.lens_targets.is_some() { Some(LensParameter { with_args: lens_with_args }) } else { None };
        let canister_name = match val.id {
            Some(id) => id,
            None => String::new(),
        };
        SnapshotIndexerICPConfig {
            common: CommonConfig { canister_name },
            method_identifier: val.datasource.method.identifier,
            is_target_component: match val.is_target_component { Some(b) => b, None => true },
            lens_parameter,
        }
    }
}

/// The configuration of the canister of a snapshot indexer reading a
/// contract.
#[derive(Debug)]
pub struct SnapshotIndexerEVMConfig {
    pub common: CommonConfig,
    pub method_identifier: String,
    pub method_args: Vec<serde_yaml::Value>,
    pub abi_file_path: String,
}

impl SnapshotIndexerEVMConfig {
    /// The configuration of the indexer: the method it calls with its
    /// arguments, and the ABI file under `./__interfaces/`. The manifest must
    /// carry its id and name the ABI file.
    pub fn from_manifest(val: SnapshotIndexerEVMComponentManifest) -> (res: SnapshotIndexerEVMConfig)
        requires
            val.id is Some,
            val.datasource.method.interface is Some,
        ensures
            Some(res.common.canister_name@) == owned_opt(val.id),
            res.method_identifier@ == val.datasource.method.identifier@,
            res.method_args@ == val.datasource.method.args@,
            res.abi_file_path@ == "./__interfaces/"@ + val.datasource.method.interface->0@,
    {
        let canister_name = match val.id {
            Some(id) => id,
            None => String::new(),
        };
        let mut abi_file_path = String::from_str("./__interfaces/");
        match &val.datasource.method.interface {
            Some(i) => abi_file_path.append(i.as_str()),
            None => {},
        }
        SnapshotIndexerEVMConfig {
            common: CommonConfig { canister_name },
            method_identifier: val.datasource.method.identifier,
            method_args: val.datasource.method.args,
            abi_file_path,
        }
    }
}

/// The query parameters an HTTPS indexer sends: fixed ones, or the name of
/// the function that computes them.
#[derive(Clone, Debug)]
pub enum SnapshotIndexerHTTPSConfigQueries {
    Const(Vec<(String, String)>),
    Func(String),
}

impl SnapshotIndexerHTTPSConfigQueries {
    /// Fixed parameters stay fixed; dynamic ones are computed by
    /// `get_query_parameters`.
    pub fn from_queries(val: SnapshotIndexerHTTPSDataSourceQueries) -> (res: SnapshotIndexerHTTPSConfigQueries)
        ensures
            match val {
                SnapshotIndexerHTTPSDataSourceQueries::Static(q) => res matches SnapshotIndexerHTTPSConfigQueries::Const(c) && c == q,
                SnapshotIndexerHTTPSDataSourceQueries::Dynamic => res matches SnapshotIndexerHTTPSConfigQueries::Func(f) && f@ == "get_query_parameters"@,
            },
    {
        match val {
            SnapshotIndexerHTTPSDataSourceQueries::Static(q) => SnapshotIndexerHTTPSConfigQueries::Const(q),
            SnapshotIndexerHTTPSDataSourceQueries::Dynamic => SnapshotIndexerHTTPSConfigQueries::Func(String::from_str("get_query_parameters")),
        }
    }
}

/// The configuration of the canister of a snapshot indexer over HTTPS.
#[derive(Clone, Debug)]
pub struct SnapshotIndexerHTTPSConfig {
    pub common: CommonConfig,
    pub url: String,
    pub headers: Vec<(String, String)>,
    pub queries: SnapshotIndexerHTTPSConfigQueries,
}

impl SnapshotIndexerHTTPSConfig {
    /// The configuration of the indexer: the endpoint, its headers and its
    /// query parameters. The manifest must carry its id.
    pub fn from_manifest(val: SnapshotIndexerHTTPSComponentManifest) -> (res: SnapshotIndexerHTTPSConfig)
        requires
            val.id is Some,
        ensures
            Some(res.common.canister_name@) == owned_opt(val.id),
            res.url == val.datasource.url,
            res.headers == val.datasource.headers,
            match val.datasource.queries {
                SnapshotIndexerHTTPSDataSourceQueries::Static(q) => res.queries matches SnapshotIndexerHTTPSConfigQueries::Const(c) && c == q,
                SnapshotIndexerHTTPSDataSourceQueries::Dynamic => res.queries matches SnapshotIndexerHTTPSConfigQueries::Func(f) && f@ == "get_query_parameters"@,
            },
    {
        let canister_name = match val.id {
            Some(id) => id,
            None => String::new(),
        };
        SnapshotIndexerHTTPSConfig {
            common: CommonConfig { canister_name },
            url: val.datasource.url,
            headers: val.datasource.headers,
            queries: SnapshotIndexerHTTPSConfigQueries::from_queries(val.datasource.queries),
        }
    }
}

/// Where an algorithm indexer starts and how many entries it reads at a
/// time (as many as it likes when `None`).
#[derive(Clone, Copy, Debug, PartialEq, Eq, Structural)]
pub struct IndexingConfig {
    pub start_from: u64,
    pub chunk_size: Option<u64>,
}

/// What an algorithm indexer reads: the method it calls, the record type it
/// receives and the kind of its source.
#[derive(Clone, Debug)]
pub struct AlgorithmIndexerInput {
    pub method_name: String,
    pub response_type: String,
    pub source_type: AlgorithmInputType,
}

/// The configuration of an algorithm indexer's canister.
#[derive(Clone, Debug)]
pub struct AlgorithmIndexerConfig {
    pub common: CommonConfig,
    pub indexing: IndexingConfig,
    pub input: AlgorithmIndexerInput,
}

impl AlgorithmIndexerConfig {
    /// The configuration of the indexer: it starts where the manifest says,
    /// with no limit on the entries read at a time. The manifest must carry
    /// its id.
    pub fn from_manifest(val: AlgorithmIndexerComponentManifest) -> (res: AlgorithmIndexerConfig)
        requires
            val.id is Some,
        ensures
            Some(res.common.canister_name@) == owned_opt(val.id),
            res.indexing == (IndexingConfig { start_from: val.datasource.from, chunk_size: None }),
            res.input.method_name == val.datasource.method,
            res.input.response_type == val.datasource.input.name,
            res.input.source_type == val.datasource.source_type,
    {
        let canister_name = match val.id {
            Some(id) => id,
            None => String::new(),
        };
        AlgorithmIndexerConfig {
            common: CommonConfig { canister_name },
            indexing: IndexingConfig { start_from: val.datasource.from, chunk_size: None },
            input: AlgorithmIndexerInput {
                method_name: val.datasource.method,
                response_type: val.datasource.input.name,
                source_type: val.datasource.source_type,
            },
        }
    }
}

} // verus!
