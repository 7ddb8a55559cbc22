//! Parts shared by all component manifests: metadata, timers and the cycles
//! budget of the canisters a component deploys.

use vstd::prelude::*;
use crate::text::{decimal, push_decimal, replace_all, replace_str};
use crate::types::ComponentType;
use crate::method_identifier::{find_char, lemma_find_char};

verus! {

/// What a relayer writes to its destination contract.
#[derive(Clone, Copy, Debug, PartialEq, Eq, Structural)]
pub enum DestinationType {
    Uint256,
    Uint128,
    Uint64,
    String,
    Custom,
}

/// Where a component takes its data from.
#[derive(Clone, Copy, Debug, PartialEq, Eq, Structural)]
pub enum SourceType {
    Evm,
    Chainsight,
    Https,
}

/// The kinds of outside calls a generated canister makes: to an EVM
/// contract, or to another canister of the platform.
#[derive(Clone, Copy, Debug, PartialEq, Eq, Structural)]
pub enum OutsideCallType {
    Evm,
    Chainsight,
}

/// The metadata every component manifest starts with.
#[derive(Clone, Debug)]
pub struct ComponentMetadata {
    pub label: String,
    pub type_: ComponentType,
    pub description: String,
    pub tags: Option<Vec<String>>,
}

/// The canister a component reads from.
#[derive(Clone, Debug)]
pub struct DatasourceLocationForCanister {
    pub id: String,
}

impl Default for DatasourceLocationForCanister {
    fn default() -> (res: Self)
        ensures
            res.id@ == "sample_snapshot_indexer_evm"@,
    {
        DatasourceLocationForCanister { id: String::from_str("sample_snapshot_indexer_evm") }
    }
}

/// The code generated for a component: its library and, for some kinds, a
/// module of types.
#[derive(Debug)]
pub struct GeneratedCodes {
    pub lib: String,
    pub types: Option<String>,
}

/// The part of a manifest that tells which kind of component it describes.
#[derive(Clone, Debug)]
pub struct ComponentTypeInManifest {
    pub metadata: ComponentMetadata,
}

impl ComponentTypeInManifest {
    /// The component type written in a manifest.
    pub fn determine_type(&self) -> (res: ComponentType)
        ensures
            res == self.metadata.type_,
    {
        self.metadata.type_
    }
}

/// When a component's task runs: every `interval_sec` seconds, after
/// `delay_sec`, and whether runs are aligned to round start times.
#[derive(Clone, Copy, Debug)]
pub struct TimerSettings {
    pub interval_sec: u32,
    pub delay_sec: Option<u32>,
    pub is_round_start_timing: Option<bool>,
}

/// The wasm metadata tag that records a component's interval.
pub fn custom_tags_interval_sec(interval_sec: u32) -> (res: (String, String))
    ensures
        res.0@ == "chainsight:intervalSec"@,
        res.1@ == decimal(interval_sec as nat),
{
    let mut v = String::new();
    push_decimal(&mut v, interval_sec as u128);
    (String::from_str("chainsight:intervalSec"), v)
}

/// The cycles settings a manifest may give for one canister.
#[derive(Clone, Copy, Debug, Default)]
pub struct CycleManagementManifest {
    pub initial_supply: Option<u128>,
    pub refueling_amount: Option<u128>,
    pub refueling_threshold: Option<u128>,
}

/// The cycles settings a manifest may give for a component.
#[derive(Clone, Copy, Debug, Default)]
pub struct CycleManagementsManifest {
    pub refueling_interval: Option<u64>,
    pub vault_intial_supply: Option<u128>,
    pub indexer: Option<CycleManagementManifest>,
    pub db: Option<CycleManagementManifest>,
    pub proxy: Option<CycleManagementManifest>,
}

/// The cycles budget of one canister.
#[derive(Clone, Copy, Debug, PartialEq, Eq, Structural)]
pub struct CycleManagement {
    pub initial_supply: u128,
    pub refueling_amount: u128,
    pub refueling_threshold: u128,
}

/// The cycles budget of a component: its vault and its three canisters.
#[derive(Clone, Copy, Debug, PartialEq, Eq, Structural)]
pub struct CycleManagements {
    pub refueling_interval: u64,
    pub vault_intial_supply: u128,
    pub indexer: CycleManagement,
    pub db: CycleManagement,
    pub proxy: CycleManagement,
}

/// The cycles settings of a manifest, none given where it has none.
pub open spec fn cycles_or_default(c: Option<CycleManagementsManifest>) -> CycleManagementsManifest {
    match c {
        Some(c) => c,
        None => CycleManagementsManifest { refueling_interval: None, vault_intial_supply: None, indexer: None, db: None, proxy: None },
    }
}

/// The cycles budget of a manifest's settings.
pub fn cycles_of(c: &Option<CycleManagementsManifest>) -> (res: CycleManagements)
    ensures
        res == cycle_managements_spec(cycles_or_default(*c)),
{
    let c = match c {
        Some(c) => *c,
        None => CycleManagementsManifest { refueling_interval: None, vault_intial_supply: None, indexer: None, db: None, proxy: None },
    };
    CycleManagements::from_manifest(c)
}

pub open spec fn or_default<T>(o: Option<T>, d: T) -> T {
    match o {
        Some(v) => v,
        None => d,
    }
}

/// A canister's budget, where the manifest leaves values out taking the given
/// defaults.
pub open spec fn cycle_management_spec(m: Option<CycleManagementManifest>, initial: u128, amount: u128, threshold: u128) -> CycleManagement {
    match m {
        Some(m) => CycleManagement {
            initial_supply: or_default(m.initial_supply, initial),
            refueling_amount: or_default(m.refueling_amount, amount),
            refueling_threshold: or_default(m.refueling_threshold, threshold),
        },
        None => CycleManagement { initial_supply: initial, refueling_amount: amount, refueling_threshold: threshold },
    }
}

/// The budget of a component: a day between refuelings and one trillion
/// cycles in the vault unless the manifest says otherwise; the canisters'
/// defaults are those of `cycle_management_spec` below.
pub open spec fn cycle_managements_spec(m: CycleManagementsManifest) -> CycleManagements {
    CycleManagements {
        refueling_interval: or_default(m.refueling_interval, 86400),
        vault_intial_supply: or_default(m.vault_intial_supply, 1_000_000_000_000),
        indexer: cycle_management_spec(m.indexer, 0, 1_000_000_000_000, 500_000_000_000),
        db: cycle_management_spec(m.db, 1_500_000_000_000, 1_000_000_000_000, 500_000_000_000),
        proxy: cycle_management_spec(m.proxy, 300_000_000_000, 100_000_000_000, 100_000_000_000),
    }
}

fn cycle_management_or(m: Option<CycleManagementManifest>, initial: u128, amount: u128, threshold: u128) -> (res: CycleManagement)
    ensures
        res == cycle_management_spec(m, initial, amount, threshold),
{
    let m = match m {
        Some(m) => m,
        None => CycleManagementManifest { initial_supply: None, refueling_amount: None, refueling_threshold: None },
    };
    CycleManagement {
        initial_supply: match m.initial_supply { Some(v) => v, None => initial },
        refueling_amount: match m.refueling_amount { Some(v) => v, None => amount },
        refueling_threshold: match m.refueling_threshold { Some(v) => v, None => threshold },
    }
}

impl CycleManagements {
    /// The budget a manifest's settings stand for.
    pub fn from_manifest(val: CycleManagementsManifest) -> (res: CycleManagements)
        ensures
            res == cycle_managements_spec(val),
    {
        CycleManagements {
            refueling_interval: match val.refueling_interval { Some(v) => v, None => 86400 },
            vault_intial_supply: match val.vault_intial_supply { Some(v) => v, None => 1_000_000_000_000 },
            indexer: cycle_management_or(val.indexer, 0, 1_000_000_000_000, 500_000_000_000),
            db: cycle_management_or(val.db, 1_500_000_000_000, 1_000_000_000_000, 500_000_000_000),
            proxy: cycle_management_or(val.proxy, 300_000_000_000, 100_000_000_000, 100_000_000_000),
        }
    }

    /// The cycles a component needs at start: its vault and the initial
    /// supply of each canister.
    pub open spec fn initial_supply_spec(self) -> int {
        self.vault_intial_supply + self.indexer.initial_supply + self.db.initial_supply + self.proxy.initial_supply
    }

    pub fn initial_supply(&self) -> (res: u128)
        requires
            self.initial_supply_spec() <= u128::MAX,
        ensures
            res == self.initial_supply_spec(),
    {
        self.vault_intial_supply + self.indexer.initial_supply + self.db.initial_supply + self.proxy.initial_supply
    }

    /// Whether the cycles a component needs at start fit in a `u128`.
    pub fn initial_supply_fits(&self) -> (res: bool)
        ensures
            res == (self.initial_supply_spec() <= u128::MAX),
    {
        let a = self.vault_intial_supply.checked_add(self.indexer.initial_supply);
        let b = match a { Some(x) => x.checked_add(self.db.initial_supply), None => None };
        let c = match b { Some(x) => x.checked_add(self.proxy.initial_supply), None => None };
        c.is_some()
    }
}


/// A YAML value, as a manifest gives the arguments of a method.
#[verifier::external_type_specification]
#[verifier::external_body]
pub struct ExYamlValue(serde_yaml::Value);

/// The method a component calls on its data source: its identifier, the
/// file that describes its interface, and the arguments it is called with.
#[derive(Clone, Debug)]
pub struct DatasourceMethod {
    pub identifier: String,
    pub interface: Option<String>,
    pub args: Vec<serde_yaml::Value>,
}

impl Default for DatasourceMethod {
    fn default() -> (res: Self)
        ensures
            res.identifier@ == "get_last_snapshot : () -> (record { value : text; timestamp : nat64 })"@,
            res.interface is None,
            res.args@.len() == 0,
    {
        DatasourceMethod {
            identifier: String::from_str("get_last_snapshot : () -> (record { value : text; timestamp : nat64 })"),
            interface: None,
            args: Vec::new(),
        }
    }
}

/// A data source on the Internet Computer: the canister and the method.
#[derive(Clone, Debug)]
pub struct DatasourceForCanister {
    pub location: DatasourceLocationForCanister,
    pub method: DatasourceMethod,
}

impl Default for DatasourceForCanister {
    fn default() -> (res: Self)
        ensures
            res.location.id@ == "sample_snapshot_indexer_evm"@,
            res.method.identifier@ == "get_last_snapshot : () -> (record { value : text; timestamp : nat64 })"@,
            res.method.interface is None,
            res.method.args@.len() == 0,
    {
        DatasourceForCanister { location: DatasourceLocationForCanister::default(), method: DatasourceMethod::default() }
    }
}

/// The canisters a lens-backed component passes on to the lens.
#[derive(Clone, Debug)]
pub struct LensTargets {
    pub identifiers: Vec<String>,
}

/// The value of one attribute of a component's sources: a number, a text or
/// a list of texts (JSON values of these shapes).
#[derive(Clone, Debug)]
pub enum AttributeValue {
    Number(u64),
    Text(String),
    TextList(Vec<String>),
}

/// Where a component's data comes from, as recorded for the platform.
#[derive(Clone, Debug)]
pub struct Sources {
    pub source_type: SourceType,
    pub source: String,
    pub attributes: Vec<(String, AttributeValue)>,
}

/// The view of an attribute value.
pub enum AttributeView {
    Number(u64),
    Text(Seq<char>),
    TextList(Seq<Seq<char>>),
}

pub open spec fn attribute_view(v: AttributeValue) -> AttributeView {
    match v {
        AttributeValue::Number(n) => AttributeView::Number(n),
        AttributeValue::Text(t) => AttributeView::Text(t@),
        AttributeValue::TextList(l) => AttributeView::TextList(l@.map_values(|x: String| x@)),
    }
}

/// The attributes of a source, as names and values in the order given.
pub open spec fn attributes_view(a: Seq<(String, AttributeValue)>) -> Seq<(Seq<char>, AttributeView)> {
    a.map_values(|p: (String, AttributeValue)| (p.0@, attribute_view(p.1)))
}

/// The address under which the JSON schemas of manifests are published.
pub open spec fn schema_url_prefix() -> Seq<char> {
    "https://raw.githubusercontent.com/horizonx-tech/chainsight-cli/main/resources/schema/"@
}

/// A manifest's YAML with the line that names its schema put first.
pub open spec fn yaml_with_schema_spec(yaml: Seq<char>, schema_file_name: Seq<char>) -> Seq<char> {
    "# yaml-language-server: $schema="@ + schema_url_prefix() + schema_file_name + ".json"@ + "\n"@ + yaml
}

/// Puts the line that names the manifest's schema in front of its YAML.
pub fn yaml_str_with_configs(yaml: String, schema_file_name: String) -> (res: String)
    ensures
        res@ == yaml_with_schema_spec(yaml@, schema_file_name@),
{
    let mut res = String::from_str("# yaml-language-server: $schema=");
    res.append("https://raw.githubusercontent.com/horizonx-tech/chainsight-cli/main/resources/schema/");
    res.append(schema_file_name.as_str());
    res.append(".json");
    res.append("\n");
    res.append(yaml.as_str());
    res
}

/// The name of the function a method identifier calls: the part before the
/// first `:`, without blanks and without `()`; an identifier without `:` is
/// kept as it is.
pub open spec fn function_name_spec(identifier: Seq<char>) -> Seq<char> {
    match find_char(identifier, ':') {
        Some(k) => replace_all(replace_all(identifier.take(k as int), " "@, ""@), "()"@, ""@),
        None => identifier,
    }
}

/// The name of the function a method identifier such as
/// `get_last_snapshot : () -> (nat)` calls.
pub fn function_name_of(identifier: &str) -> (res: String)
    ensures
        res@ == function_name_spec(identifier@),
{
    let n = identifier.unicode_len();
    let mut k: usize = 0;
    while k < n && identifier.get_char(k) != ':'
        invariant
            n == identifier@.len(),
            k <= n,
            forall|m: int| 0 <= m < k ==> identifier@[m] != ':',
        decreases n - k,
    {
        k = k + 1;
    }
    proof { lemma_find_char(identifier@, ':', k as int); }
    if k == n {
        return String::from_str(identifier);
    }
    proof {
        reveal_strlit(" ");
        reveal_strlit("()");
    }
    let head = identifier.substring_char(0, k);
    assert(head@ =~= identifier@.take(k as int));
    let no_blanks = replace_str(head, " ", "");
    replace_str(no_blanks.as_str(), "()", "")
}

/// The metadata tags of a component that only records its interval.
pub fn interval_tags(interval_sec: u32) -> (res: Vec<(String, String)>)
    ensures
        res@.len() == 1,
        res@[0].0@ == "chainsight:intervalSec"@,
        res@[0].1@ == decimal(interval_sec as nat),
{
    let mut res = Vec::new();
    res.push(custom_tags_interval_sec(interval_sec));
    res
}

} // verus!
