//! Algorithm lens components: a lens computes a value from the data of other
//! components on request.

use vstd::prelude::*;
use crate::common::{
    ComponentMetadata, CycleManagements, CycleManagementsManifest, DestinationType, SourceType, Sources,
    cycle_managements_spec, cycles_or_default, cycles_of, yaml_str_with_configs, yaml_with_schema_spec,
};
use crate::principal::anonymous_principal_text;
use crate::scripts::{init_in_env_task, init_in_env_task_spec};
use crate::text::{views, join, join_spec};
use crate::types::{ComponentType, Network};
use crate::utils::{duplicates, find_duplicates};
use crate::text::push_decimal;
use crate::text::decimal;
use crate::paths::{accessors_name, accessors_name_spec};
use crate::canister_code::{ascii_ident, ascii_ident_exec};
use crate::method_identifier::{
    CanisterMethodIdentifier, identifier_has_parts, did_parses, identifier_did, declared_type, did_type_env,
};

verus! {

/// Component manifest: algorithm lens.
#[derive(Clone, Debug)]
pub struct AlgorithmLensComponentManifest {
    pub id: Option<String>,
    pub version: String,
    pub metadata: ComponentMetadata,
    pub datasource: AlgorithmLensDataSource,
    pub cycles: Option<CycleManagementsManifest>,
}

/// The kind of value a lens returns.
#[derive(Clone, Copy, Debug, PartialEq, Eq, Structural)]
pub enum AlgorithmLensOutputType {
    Struct,
    Primitive,
}

/// The components a lens reads, and whether its calculation takes arguments.
#[derive(Clone, Debug)]
pub struct AlgorithmLensDataSource {
    pub methods: Vec<AlgorithmLensDataSourceMethod>,
    pub with_args: bool,
}

/// One component a lens reads: its id, the method it calls there and,
/// optionally, the candid file that describes the method.
#[derive(Clone, Debug)]
pub struct AlgorithmLensDataSourceMethod {
    pub id: String,
    pub identifier: String,
    pub candid_file_path: Option<String>,
}

/// The ids of the components a lens reads, in order.
pub open spec fn method_ids(m: Seq<AlgorithmLensDataSourceMethod>) -> Seq<Seq<char>> {
    m.map_values(|x: AlgorithmLensDataSourceMethod| x.id@)
}

pub open spec fn owned_opt(o: Option<String>) -> Option<Seq<char>> {
    match o {
        Some(s) => Some(s@),
        None => None,
    }
}

impl AlgorithmLensDataSource {
    /// The sample data source a new lens starts with.
    pub fn default() -> (res: Self)
        ensures
            res.methods@.len() == 1,
            res.methods@[0].id@ == "sample_snapshot_indexer_icp"@,
            res.methods@[0].identifier@ == "get_last_snapshot : () -> (record { value : text; timestamp : nat64 })"@,
            res.methods@[0].candid_file_path is None,
            !res.with_args,
    {
        let mut methods = Vec::new();
        methods.push(AlgorithmLensDataSourceMethod {
            id: String::from_str("sample_snapshot_indexer_icp"),
            identifier: String::from_str("get_last_snapshot : () -> (record { value : text; timestamp : nat64 })"),
            candid_file_path: None,
        });
        AlgorithmLensDataSource { methods, with_args: false }
    }
}

impl AlgorithmLensComponentManifest {
    pub fn new(id: &str, label: &str, description: &str, version: &str, datasource: AlgorithmLensDataSource) -> (res: Self)
        ensures
            owned_opt(res.id) == Some(id@),
            res.version@ == version@,
            res.metadata.label@ == label@,
            res.metadata.type_ == ComponentType::AlgorithmLens,
            res.metadata.description@ == description@,
            res.metadata.tags matches Some(t) && views(t@) == seq!["Ethereum"@, "Account"@],
            res.datasource == datasource,
            res.cycles is None,
    {
        let mut tags = Vec::new();
        tags.push(String::from_str("Ethereum"));
        tags.push(String::from_str("Account"));
        assert(views(tags@) =~= seq!["Ethereum"@, "Account"@]);
        AlgorithmLensComponentManifest {
            id: Some(String::from_str(id)),
            version: String::from_str(version),
            metadata: ComponentMetadata {
                label: String::from_str(label),
                type_: ComponentType::AlgorithmLens,
                description: String::from_str(description),
                tags: Some(tags),
            },
            datasource,
            cycles: None,
        }
    }

    /// The ids of the components this lens depends on.
    pub fn dependencies(&self) -> (res: Vec<String>)
        ensures
            views(res@) == method_ids(self.datasource.methods@),
    {
        let methods = &self.datasource.methods;
        let mut res: Vec<String> = Vec::new();
        let mut i: usize = 0;
        while i < methods.len()
            invariant
                i <= methods@.len(),
                views(res@) =~= method_ids(methods@.take(i as int)),
            decreases methods@.len() - i,
        {
            let ghost before = views(res@);
            res.push(methods[i].id.clone());
            assert(views(res@) =~= before.push(methods@[i as int].id@));
            assert(methods@.take(i + 1) =~= methods@.take(i as int).push(methods@[i as int]));
            assert(method_ids(methods@.take(i + 1)) =~= method_ids(methods@.take(i as int)).push(methods@[i as int].id@));
            i = i + 1;
        }
        assert(methods@.take(i as int) =~= methods@);
        res
    }

    pub fn id(&self) -> (res: Option<String>)
        ensures
            owned_opt(res) == owned_opt(self.id),
    {
        match &self.id {
            Some(s) => Some(s.clone()),
            None => None,
        }
    }

    /// The cycles budget of the lens's canisters.
    pub fn cycle_managements(&self) -> (res: CycleManagements)
        ensures
            res == cycle_managements_spec(cycles_or_default(self.cycles)),
    {
        cycles_of(&self.cycles)
    }

    pub fn component_type(&self) -> (res: ComponentType)
        ensures
            res == ComponentType::AlgorithmLens,
    {
        ComponentType::AlgorithmLens
    }

    pub fn destination_type(&self) -> (res: Option<DestinationType>)
        ensures
            res is None,
    {
        None
    }

    pub fn required_interface(&self) -> (res: Option<String>)
        ensures
            res is None,
    {
        None
    }

    /// The lens's source, as recorded for now: the anonymous principal, with
    /// no attributes.
    pub fn get_sources(&self) -> (res: Sources)
        ensures
            res.source_type == SourceType::Chainsight,
            res.source@ == "2vxsx-fae"@,
            res.attributes@.len() == 0,
    {
        Sources { source_type: SourceType::Chainsight, source: anonymous_principal_text(), attributes: Vec::new() }
    }

    /// A lens's wasm carries no tags of its own.
    pub fn custom_tags(&self) -> (res: Vec<(String, String)>)
        ensures
            res@.len() == 0,
    {
        Vec::new()
    }

    /// The manifest's YAML with its schema line.
    pub fn yaml_with_schema(&self, yaml: String) -> (res: String)
        ensures
            res@ == yaml_with_schema_spec(yaml@, "algorithm_lens"@),
    {
        yaml_str_with_configs(yaml, String::from_str("algorithm_lens"))
    }
}

/// What checking a lens manifest answers: the type must be an algorithm
/// lens, and no component may be read twice.
pub open spec fn validate_manifest_spec(m: AlgorithmLensComponentManifest) -> Result<(), Seq<char>> {
    if m.metadata.type_ != ComponentType::AlgorithmLens {
        Err("type is not AlgorithmLens"@)
    } else if duplicates(method_ids(m.datasource.methods@)).len() > 0 {
        Err("duplicated id found in datasource.methods: "@ + join_spec(duplicates(method_ids(m.datasource.methods@)), ", "@))
    } else {
        Ok(())
    }
}

pub open spec fn unit_result_view(r: Result<(), String>) -> Result<(), Seq<char>> {
    match r {
        Ok(()) => Ok(()),
        Err(e) => Err(e@),
    }
}

/// Checks a lens manifest.
pub fn validate_manifest(manifest: &AlgorithmLensComponentManifest) -> (res: Result<(), String>)
    ensures
        unit_result_view(res) == validate_manifest_spec(*manifest),
{
    if manifest.metadata.type_ != ComponentType::AlgorithmLens {
        return Err(String::from_str("type is not AlgorithmLens"));
    }
    let dependencies = manifest.dependencies();
    let duplicateds = find_duplicates(dependencies.as_slice());
    if duplicateds.len() > 0 {
        let mut msg = String::from_str("duplicated id found in datasource.methods: ");
        let listed = join(&duplicateds, ", ");
        msg.append(listed.as_str());
        return Err(msg);
    }
    Ok(())
}

/// The script that initialises a lens.
pub open spec fn script_contents_spec(id: Seq<char>, network: Network, cycles: CycleManagements) -> Seq<char> {
    "#!/bin/bash\n# init\n"@ + init_in_env_task_spec(network, id, cycles) + "\n"@
}

/// The script that initialises a lens, if the manifest is one. The manifest
/// must carry its id.
pub fn generate_scripts(manifest: &AlgorithmLensComponentManifest, network: Network) -> (res: Result<String, String>)
    requires
        manifest.id is Some,
        manifest.metadata.type_ == ComponentType::AlgorithmLens ==>
            cycle_managements_spec(cycles_or_default(manifest.cycles)).initial_supply_spec() <= u128::MAX,
    ensures
        manifest.metadata.type_ != ComponentType::AlgorithmLens ==> (res matches Err(e) && e@ == "type is not AlgorithmLens"@),
        manifest.metadata.type_ == ComponentType::AlgorithmLens ==> (res matches Ok(s) && s@ == script_contents_spec(
            manifest.id->0@,
            network,
            cycle_managements_spec(cycles_or_default(manifest.cycles)),
        )),
{
    if manifest.metadata.type_ != ComponentType::AlgorithmLens {
        return Err(String::from_str("type is not AlgorithmLens"));
    }
    let id = match manifest.id() {
        Some(id) => id,
        None => { return Err(String::new()); },
    };
    let cycles = manifest.cycle_managements();
    let task = init_in_env_task(&network, id.as_str(), &cycles);
    let mut res = String::from_str("#!/bin/bash\n# init\n");
    res.append(task.as_str());
    res.append("\n");
    Ok(res)
}

/// Whether candid reads the identifier of each method a lens calls.
pub open spec fn lens_methods_readable(ms: Seq<AlgorithmLensDataSourceMethod>) -> bool {
    forall|i: int| 0 <= i < ms.len() ==>
        identifier_has_parts(#[trigger] ms[i].identifier@) && did_parses(identifier_did(ms[i].identifier@))
}

/// Whether the names the lens template gives are identifiers: the module
/// of its accessors and the getter of each method.
pub open spec fn lens_app_idents_ok(m: AlgorithmLensComponentManifest) -> bool {
    m.id matches Some(id) ==> {
        &&& ascii_ident(accessors_name_spec(id@))
        &&& forall|i: int| 0 <= i < m.datasource.methods@.len() ==>
            ascii_ident("get_"@ + (#[trigger] m.datasource.methods@[i]).id@)
    }
}

/// Whether the method at `identifier` takes arguments: candid declares its
/// argument type.
pub open spec fn method_takes_args(identifier: Seq<char>) -> bool {
    declared_type(did_type_env(identifier_did(identifier)), "RequestArgsType"@) is Some
}

/// The line of the template that calls the `i`-th method of a lens.
pub open spec fn lens_call_line(m: AlgorithmLensDataSourceMethod, i: int) -> Seq<char> {
    "    let _result = get_"@ + m.id@ + "(targets.get("@ + decimal(i as nat) + "usize).unwrap().clone()"@
        + (if method_takes_args(m.identifier@) { ", todo!(\"Arguments to be used in this call\")"@ } else { Seq::<char>::empty() })
        + ").await;\n"@
}

/// The call lines of the first `n` methods.
pub open spec fn lens_call_lines(ms: Seq<AlgorithmLensDataSourceMethod>, n: int) -> Seq<char>
    decreases n,
{
    if n <= 0 {
        Seq::empty()
    } else {
        lens_call_lines(ms, n - 1) + lens_call_line(ms[n - 1], n - 1)
    }
}

/// The logic module that a new lens starts from: its value type, its
/// arguments type where it takes arguments, and a `calculate` template that
/// calls each method it reads.
pub open spec fn lens_app_spec(m: AlgorithmLensComponentManifest) -> Result<Seq<char>, Seq<char>> {
    match m.id {
        None => Err("id is required"@),
        Some(id) => Ok(
            "use "@ + accessors_name_spec(id@) + "::*;\n\n#[derive(Clone, Debug,  Default, candid::CandidType, serde::Deserialize, serde::Serialize)]\npub struct LensValue {\n    pub dummy: u64\n}\n\n"@
                + (if m.datasource.with_args {
                    "#[derive(Clone, Debug,  Default, candid::CandidType, serde::Deserialize, serde::Serialize)]\npub struct CalculateArgs {\n    pub dummy: u64\n}\n\npub async fn calculate(targets: Vec<String>, args: CalculateArgs) -> LensValue {\n"@
                } else {
                    "pub async fn calculate(targets: Vec<String>) -> LensValue {\n"@
                })
                + lens_call_lines(m.datasource.methods@, m.datasource.methods@.len() as int)
                + "    todo!()\n}\n"@,
        ),
    }
}

/// The logic module that a new lens starts from; an error where the lens
/// has no id. Candid must read each method's identifier.
pub fn generate_app(manifest: &AlgorithmLensComponentManifest) -> (res: Result<String, String>)
    requires
        lens_methods_readable(manifest.datasource.methods@),
        lens_app_idents_ok(*manifest),
    ensures
        match res {
            Ok(c) => lens_app_spec(*manifest) == Ok::<Seq<char>, Seq<char>>(c@),
            Err(e) => lens_app_spec(*manifest) == Err::<Seq<char>, Seq<char>>(e@),
        },
{
    let id = match &manifest.id {
        Some(id) => id,
        None => { return Err(String::from_str("id is required")); },
    };
    let mut res = String::from_str("use ");
    let acc = accessors_name(id.as_str());
    res.append(acc.as_str());
    res.append("::*;\n\n#[derive(Clone, Debug,  Default, candid::CandidType, serde::Deserialize, serde::Serialize)]\npub struct LensValue {\n    pub dummy: u64\n}\n\n");
    if manifest.datasource.with_args {
        res.append("#[derive(Clone, Debug,  Default, candid::CandidType, serde::Deserialize, serde::Serialize)]\npub struct CalculateArgs {\n    pub dummy: u64\n}\n\npub async fn calculate(targets: Vec<String>, args: CalculateArgs) -> LensValue {\n");
    } else {
        res.append("pub async fn calculate(targets: Vec<String>) -> LensValue {\n");
    }
    let ghost head = res@;
    let methods = &manifest.datasource.methods;
    let mut i: usize = 0;
    while i < methods.len()
        invariant
            i <= methods@.len(),
            lens_methods_readable(methods@),
            res@ == head + lens_call_lines(methods@, i as int),
        decreases methods@.len() - i,
    {
        let m = &methods[i];
        assert(identifier_has_parts(methods@[i as int].identifier@));
        let ident = match CanisterMethodIdentifier::new(m.identifier.as_str()) {
            Ok(x) => x,
            Err(_) => { assert(false); return Err(String::new()); },
        };
        let (args_ty, _) = ident.get_types();
        res.append("    let _result = get_");
        res.append(m.id.as_str());
        res.append("(targets.get(");
        push_decimal(&mut res, i as u128);
        res.append("usize).unwrap().clone()");
        if args_ty.is_some() {
            res.append(", todo!(\"Arguments to be used in this call\")");
        }
        res.append(").await;\n");
        assert(res@ =~= head + lens_call_lines(methods@, i + 1));
        i = i + 1;
    }
    res.append("    todo!()\n}\n");
    assert(lens_app_spec(*manifest) == Ok::<Seq<char>, Seq<char>>(res@));
    Ok(res)
}

/// The logic module that a new lens starts from, or `None` where candid
/// cannot read the identifier of a method it calls.
pub fn try_generate_app(manifest: &AlgorithmLensComponentManifest) -> (res: Option<Result<String, String>>)
    ensures
        res is Some <==> lens_methods_readable(manifest.datasource.methods@) && lens_app_idents_ok(*manifest),
        res matches Some(Ok(c)) ==> lens_app_spec(*manifest) == Ok::<Seq<char>, Seq<char>>(c@),
        res matches Some(Err(e)) ==> lens_app_spec(*manifest) == Err::<Seq<char>, Seq<char>>(e@),
{
    let methods = &manifest.datasource.methods;
    let mut i: usize = 0;
    while i < methods.len()
        invariant
            i <= methods@.len(),
            methods@ == manifest.datasource.methods@,
            forall|k: int| 0 <= k < i ==>
                identifier_has_parts(#[trigger] methods@[k].identifier@) && did_parses(identifier_did(methods@[k].identifier@)),
            manifest.id is Some ==> forall|k: int| 0 <= k < i ==> ascii_ident("get_"@ + (#[trigger] methods@[k]).id@),
        decreases methods@.len() - i,
    {
        if manifest.id.is_some() {
            let mut getter = String::from_str("get_");
            getter.append(methods[i].id.as_str());
            if !ascii_ident_exec(getter.as_str()) {
                assert(!ascii_ident("get_"@ + manifest.datasource.methods@[i as int].id@));
                return None;
            }
        }
        if CanisterMethodIdentifier::try_new(methods[i].identifier.as_str()).is_none() {
            assert(!(identifier_has_parts(methods@[i as int].identifier@) && did_parses(identifier_did(methods@[i as int].identifier@))));
            return None;
        }
        i = i + 1;
    }
    match &manifest.id {
        Some(id) => {
            let acc = accessors_name(id.as_str());
            if !ascii_ident_exec(acc.as_str()) {
                return None;
            }
        },
        None => {},
    }
    Some(generate_app(manifest))
}

} // verus!
