//! The kinds of components a project can hold and the networks it can be
//! deployed to.

use vstd::prelude::*;
use crate::text::{decimal, push_decimal};

verus! {

/// Data processing component types.
#[derive(Clone, Copy, Debug, PartialEq, Eq, Structural)]
pub enum ComponentType {
    /// To synchronize event data
    EventIndexer,
    /// To get events from other indexer and convert it into another format
    AlgorithmIndexer,
    /// To periodically take and store snapshots from other Canisters
    SnapshotIndexerICP,
    /// To periodically take and store snapshots from Contract
    SnapshotIndexerEVM,
    /// To periodically take and store snapshots using HTTPS Outcall
    SnapshotIndexerHTTPS,
    /// To relay data to other blockchains
    Relayer,
    /// To calculate using data obtained from the specified Source
    AlgorithmLens,
}

/// The name of a component type, as manifests write it.
pub open spec fn component_type_name(t: ComponentType) -> Seq<char> {
    match t {
        ComponentType::EventIndexer => "event_indexer"@,
        ComponentType::AlgorithmIndexer => "algorithm_indexer"@,
        ComponentType::SnapshotIndexerICP => "snapshot_indexer_icp"@,
        ComponentType::SnapshotIndexerEVM => "snapshot_indexer_evm"@,
        ComponentType::SnapshotIndexerHTTPS => "snapshot_indexer_https"@,
        ComponentType::Relayer => "relayer"@,
        ComponentType::AlgorithmLens => "algorithm_lens"@,
    }
}

/// The order in which the tool offers the component types.
pub open spec fn all_component_types() -> Seq<ComponentType> {
    seq![
        ComponentType::EventIndexer,
        ComponentType::AlgorithmIndexer,
        ComponentType::SnapshotIndexerICP,
        ComponentType::SnapshotIndexerEVM,
        ComponentType::Relayer,
        ComponentType::AlgorithmLens,
        ComponentType::SnapshotIndexerHTTPS,
    ]
}

impl ComponentType {
    /// Every component type, once each.
    pub fn all() -> (res: Vec<ComponentType>)
        ensures
            res@ == all_component_types(),
    {
        let res = vec![
            ComponentType::EventIndexer,
            ComponentType::AlgorithmIndexer,
            ComponentType::SnapshotIndexerICP,
            ComponentType::SnapshotIndexerEVM,
            ComponentType::Relayer,
            ComponentType::AlgorithmLens,
            ComponentType::SnapshotIndexerHTTPS,
        ];
        assert(res@ =~= all_component_types());
        res
    }

    /// The name of the type, as it is displayed and written in manifests.
    pub fn to_string(&self) -> (res: String)
        ensures
            res@ == component_type_name(*self),
    {
        let s = match self {
            ComponentType::EventIndexer => "event_indexer",
            ComponentType::AlgorithmIndexer => "algorithm_indexer",
            ComponentType::SnapshotIndexerICP => "snapshot_indexer_icp",
            ComponentType::SnapshotIndexerEVM => "snapshot_indexer_evm",
            ComponentType::SnapshotIndexerHTTPS => "snapshot_indexer_https",
            ComponentType::Relayer => "relayer",
            ComponentType::AlgorithmLens => "algorithm_lens",
        };
        String::from_str(s)
    }
}

/// Every component type is listed exactly once by `all`, and the names of
/// different types differ.
pub proof fn law_component_types_listed_once(t: ComponentType, u: ComponentType)
    ensures
        all_component_types().contains(t),
        all_component_types().len() == 7,
        forall|i: int, j: int| 0 <= i < j < 7 ==> all_component_types()[i] != all_component_types()[j],
        t != u ==> component_type_name(t) != component_type_name(u),
{
    reveal_strlit("event_indexer");
    reveal_strlit("algorithm_indexer");
    reveal_strlit("snapshot_indexer_icp");
    reveal_strlit("snapshot_indexer_evm");
    reveal_strlit("snapshot_indexer_https");
    reveal_strlit("relayer");
    reveal_strlit("algorithm_lens");
    let all = all_component_types();
    match t {
        ComponentType::EventIndexer => assert(all[0] == t),
        ComponentType::AlgorithmIndexer => assert(all[1] == t),
        ComponentType::SnapshotIndexerICP => assert(all[2] == t),
        ComponentType::SnapshotIndexerEVM => assert(all[3] == t),
        ComponentType::Relayer => assert(all[4] == t),
        ComponentType::AlgorithmLens => assert(all[5] == t),
        ComponentType::SnapshotIndexerHTTPS => assert(all[6] == t),
    }
    if t != u {
        let a = component_type_name(t);
        let b = component_type_name(u);
        if a.len() == b.len() {
            assert(a[0] != b[0] || a[a.len() - 1] != b[b.len() - 1] || a[9] != b[9] || a[17] != b[17]);
        }
    }
}

/// Supported network types; `IC` is `--network ic` in dfx.
#[derive(Clone, Copy, Debug, PartialEq, Eq, Structural)]
pub enum Network {
    Local,
    IC,
}

/// The URL of a network's replica; a local replica listens on 4943 unless
/// another port is given.
pub open spec fn network_url(n: Network, port: Option<u16>) -> Seq<char> {
    match n {
        Network::Local => "http://localhost:"@ + decimal(match port { Some(p) => p as nat, None => 4943 }),
        Network::IC => "https://ic0.app/"@,
    }
}

/// The environment a component's canister is told it runs in.
#[derive(Clone, Copy, Debug, PartialEq, Eq, Structural)]
pub enum SdkEnv {
    LocalDevelopment,
    Production,
}

impl Network {
    pub fn to_url(&self, port: Option<u16>) -> (res: String)
        ensures
            res@ == network_url(*self, port),
    {
        match self {
            Network::Local => {
                let mut res = String::from_str("http://localhost:");
                let p: u16 = match port { Some(p) => p, None => 4943 };
                push_decimal(&mut res, p as u128);
                res
            },
            Network::IC => String::from_str("https://ic0.app/"),
        }
    }

    pub fn to_sdk_env(&self) -> (res: SdkEnv)
        ensures
            res == (match self {
                Network::Local => SdkEnv::LocalDevelopment,
                Network::IC => SdkEnv::Production,
            }),
    {
        match self {
            Network::Local => SdkEnv::LocalDevelopment,
            Network::IC => SdkEnv::Production,
        }
    }
}

} // verus!
