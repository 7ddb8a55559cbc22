//! The fixed files of a generated project: Cargo manifests of its crates,
//! `dfx.json` and `.gitignore`.

use vstd::prelude::*;
use crate::text::{views, join, join_spec};
use crate::paths::{
    accessors_name, accessors_name_spec, bindings_name, bindings_name_spec, canister_name, canister_name_spec,
    logic_dependency, logic_dependency_spec, bindings_dependency, bindings_dependency_spec,
    accessors_dependency, accessors_dependency_spec,
};

verus! {

/// The workspace members of a project: the canister and logic crate of each
/// component, then the bindings and accessors crates if there are any.
pub open spec fn component_members(ids: Seq<Seq<char>>) -> Seq<Seq<char>>
    decreases ids.len(),
{
    if ids.len() == 0 {
        Seq::empty()
    } else {
        component_members(ids.drop_last()) + seq!["canisters/"@ + ids.last(), "logics/"@ + ids.last()]
    }
}

pub open spec fn workspace_members(ids: Seq<Seq<char>>, with_bindings: bool, with_accessors: bool) -> Seq<Seq<char>> {
    let m = component_members(ids);
    let m = if with_bindings { m.push("bindings/*"@) } else { m };
    if with_accessors { m.push("accessors/*"@) } else { m }
}

/// Each text in double quotes.
pub open spec fn quoted(items: Seq<Seq<char>>) -> Seq<Seq<char>> {
    items.map_values(|m: Seq<char>| "\""@ + m + "\""@)
}

/// The bindings dependency line of each component.
pub open spec fn binding_dependencies(deps: Seq<Seq<char>>) -> Seq<Seq<char>> {
    deps.map_values(|d: Seq<char>| bindings_dependency_spec(d))
}

fn prefixed(prefix: &str, s: &str) -> (res: String)
    ensures
        res@ == prefix@ + s@,
{
    let mut res = String::from_str(prefix);
    res.append(s);
    res
}

fn members_of(ids: &Vec<String>, with_bindings: bool, with_accessors: bool) -> (res: Vec<String>)
    ensures
        views(res@) == workspace_members(views(ids@), with_bindings, with_accessors),
{
    let mut res: Vec<String> = Vec::new();
    let mut i: usize = 0;
    assert(views(ids@).take(0) =~= Seq::<Seq<char>>::empty());
    while i < ids.len()
        invariant
            i <= ids@.len(),
            views(res@) =~= component_members(views(ids@).take(i as int)),
        decreases ids@.len() - i,
    {
        let ghost before = views(res@);
        res.push(prefixed("canisters/", ids[i].as_str()));
        res.push(prefixed("logics/", ids[i].as_str()));
        assert(views(ids@).take(i + 1).drop_last() =~= views(ids@).take(i as int));
        assert(views(res@) =~= before + seq!["canisters/"@ + ids@[i as int]@, "logics/"@ + ids@[i as int]@]);
        i = i + 1;
    }
    assert(views(ids@).take(i as int) =~= views(ids@));
    let ghost m0 = views(res@);
    if with_bindings {
        res.push(String::from_str("bindings/*"));
    }
    let ghost m1 = views(res@);
    assert(m1 =~= if with_bindings { m0.push("bindings/*"@) } else { m0 });
    if with_accessors {
        res.push(String::from_str("accessors/*"));
    }
    assert(views(res@) =~= workspace_members(views(ids@), with_bindings, with_accessors));
    res
}

fn quote_all(items: &Vec<String>) -> (res: Vec<String>)
    ensures
        views(res@) == quoted(views(items@)),
{
    let mut res: Vec<String> = Vec::new();
    let mut i: usize = 0;
    while i < items.len()
        invariant
            i <= items@.len(),
            views(res@) =~= quoted(views(items@).take(i as int)),
        decreases items@.len() - i,
    {
        let mut q = String::from_str("\"");
        q.append(items[i].as_str());
        q.append("\"");
        let ghost before = views(res@);
        let ghost qv = q@;
        res.push(q);
        assert(views(res@) =~= before.push(qv));
        assert(views(items@).take(i + 1) =~= views(items@).take(i as int).push(items@[i as int]@));
        assert(quoted(views(items@).take(i + 1)) =~= quoted(views(items@).take(i as int)).push(qv));
        i = i + 1;
    }
    assert(views(items@).take(i as int) =~= views(items@));
    res
}

fn binding_dependency_lines(deps: &Vec<String>) -> (res: Vec<String>)
    ensures
        views(res@) == binding_dependencies(views(deps@)),
{
    let mut res: Vec<String> = Vec::new();
    let mut i: usize = 0;
    while i < deps.len()
        invariant
            i <= deps@.len(),
            views(res@) =~= binding_dependencies(views(deps@).take(i as int)),
        decreases deps@.len() - i,
    {
        let line = bindings_dependency(deps[i].as_str());
        let ghost before = views(res@);
        let ghost lv = line@;
        res.push(line);
        assert(views(res@) =~= before.push(lv));
        assert(views(deps@).take(i + 1) =~= views(deps@).take(i as int).push(deps@[i as int]@));
        assert(binding_dependencies(views(deps@).take(i + 1)) =~= binding_dependencies(views(deps@).take(i as int)).push(lv));
        i = i + 1;
    }
    assert(views(deps@).take(i as int) =~= views(deps@));
    res
}

/// The workspace manifest of a generated project, listing its members.
pub open spec fn root_cargo_toml_spec(ids: Seq<Seq<char>>, with_bindings: bool, with_accessors: bool) -> Seq<char> {
    let members = workspace_members(ids, with_bindings, with_accessors);
    "[workspace]\nmembers = ["@ + join_spec(quoted(members), ", "@) + "]\n\n[workspace.package]\nversion = \"0.1.0\"\nedition = \"2021\"\n\n[workspace.dependencies]\ncandid = \"0.9.6\"\nic-cdk = \"0.11.3\"\nic-cdk-macros = \"0.8.1\"\nic-cdk-timers = \"0.5.0\"\nic-stable-structures = \"0.5.5\"\nserde = \"1.0.163\"\nserde_bytes = \"0.11.12\"\nserde_json = \"1.0.108\"\nhex = \"0.4.3\"\n\nic-web3-rs = \"0.1.4\"\nic-solidity-bindgen = \"0.1.11\"\nchainsight-cdk-macros = { git = \"https://github.com/horizonx-tech/chainsight-sdk.git\", rev= \"011a2b066743870ccc3b205f34fbcb028e11e880\" }\nchainsight-cdk = { git = \"https://github.com/horizonx-tech/chainsight-sdk.git\", rev= \"011a2b066743870ccc3b205f34fbcb028e11e880\" }\n"@
}

pub fn root_cargo_toml(component_ids: Vec<String>, with_bindings: bool, with_accessors: bool) -> (res: String)
    ensures
        res@ == root_cargo_toml_spec(views(component_ids@), with_bindings, with_accessors),
{
    let members = members_of(&component_ids, with_bindings, with_accessors);
    let q = quote_all(&members);
    let joined = join(&q, ", ");
    let mut res = String::new();
    res.append("[workspace]\nmembers = [");
    res.append(joined.as_str());
    res.append("]\n\n[workspace.package]\nversion = \"0.1.0\"\nedition = \"2021\"\n\n[workspace.dependencies]\ncandid = \"0.9.6\"\nic-cdk = \"0.11.3\"\nic-cdk-macros = \"0.8.1\"\nic-cdk-timers = \"0.5.0\"\nic-stable-structures = \"0.5.5\"\nserde = \"1.0.163\"\nserde_bytes = \"0.11.12\"\nserde_json = \"1.0.108\"\nhex = \"0.4.3\"\n\nic-web3-rs = \"0.1.4\"\nic-solidity-bindgen = \"0.1.11\"\nchainsight-cdk-macros = { git = \"https://github.com/horizonx-tech/chainsight-sdk.git\", rev= \"011a2b066743870ccc3b205f34fbcb028e11e880\" }\nchainsight-cdk = { git = \"https://github.com/horizonx-tech/chainsight-sdk.git\", rev= \"011a2b066743870ccc3b205f34fbcb028e11e880\" }\n");
    assert(res@ =~= root_cargo_toml_spec(views(component_ids@), with_bindings, with_accessors));
    res
}

/// The manifest of a component's logic crate.
pub open spec fn logic_cargo_toml_spec(name: Seq<char>, with_bindings: bool, deps: Seq<Seq<char>>) -> Seq<char> {
    "[package]\nname = \""@ + name + "\"\nversion.workspace = true\nedition.workspace = true\n\n[lib]\ncrate-type = [\"rlib\"]\n\n[dependencies]\ncandid.workspace = true\nic-cdk.workspace = true\nic-cdk-macros.workspace = true\nic-cdk-timers.workspace = true\nic-stable-structures.workspace = true\nserde.workspace = true\nserde_bytes.workspace = true\nserde_json.workspace = true\nhex.workspace = true\n\nic-web3-rs.workspace = true\nic-solidity-bindgen.workspace = true\nchainsight-cdk-macros.workspace = true\nchainsight-cdk.workspace = true\n\n"@ + (if with_bindings { bindings_dependency_spec(name) } else { Seq::<char>::empty() }) + "\n"@ + (if deps.len() == 0 { Seq::<char>::empty() } else { accessors_dependency_spec(name) }) + "\n"@
}

pub fn logic_cargo_toml(project_name: &str, with_bindings: bool, dependencies: Vec<String>) -> (res: String)
    ensures
        res@ == logic_cargo_toml_spec(project_name@, with_bindings, views(dependencies@)),
{
    let bindings = if with_bindings { bindings_dependency(project_name) } else { String::new() };
    let accessors = if dependencies.len() == 0 { String::new() } else { accessors_dependency(project_name) };
    let mut res = String::new();
    res.append("[package]\nname = \"");
    res.append(project_name);
    res.append("\"\nversion.workspace = true\nedition.workspace = true\n\n[lib]\ncrate-type = [\"rlib\"]\n\n[dependencies]\ncandid.workspace = true\nic-cdk.workspace = true\nic-cdk-macros.workspace = true\nic-cdk-timers.workspace = true\nic-stable-structures.workspace = true\nserde.workspace = true\nserde_bytes.workspace = true\nserde_json.workspace = true\nhex.workspace = true\n\nic-web3-rs.workspace = true\nic-solidity-bindgen.workspace = true\nchainsight-cdk-macros.workspace = true\nchainsight-cdk.workspace = true\n\n");
    res.append(bindings.as_str());
    res.append("\n");
    res.append(accessors.as_str());
    res.append("\n");
    assert(res@ =~= logic_cargo_toml_spec(project_name@, with_bindings, views(dependencies@)));
    res
}

/// The manifest of a component's accessors crate, depending on the bindings
/// of each component it reads.
pub open spec fn accessors_cargo_toml_spec(name: Seq<char>, deps: Seq<Seq<char>>) -> Seq<char> {
    "[package]\nname = \""@ + accessors_name_spec(name) + "\"\nversion.workspace = true\nedition.workspace = true\n\n[lib]\ncrate-type = [\"rlib\"]\n\n[dependencies]\ncandid.workspace = true\nic-cdk.workspace = true\nic-cdk-macros.workspace = true\nic-cdk-timers.workspace = true\nic-stable-structures.workspace = true\nserde.workspace = true\nserde_bytes.workspace = true\nhex.workspace = true\n\nic-web3-rs.workspace = true\nic-solidity-bindgen.workspace = true\nchainsight-cdk-macros.workspace = true\nchainsight-cdk.workspace = true\n\n"@ + join_spec(binding_dependencies(deps), "\n"@) + "\n"@
}

pub fn accessors_cargo_toml(project_name: &str, dependencies: Vec<String>) -> (res: String)
    ensures
        res@ == accessors_cargo_toml_spec(project_name@, views(dependencies@)),
{
    let acc_name = accessors_name(project_name);
    let lines = binding_dependency_lines(&dependencies);
    let joined = join(&lines, "\n");
    let mut res = String::new();
    res.append("[package]\nname = \"");
    res.append(acc_name.as_str());
    res.append("\"\nversion.workspace = true\nedition.workspace = true\n\n[lib]\ncrate-type = [\"rlib\"]\n\n[dependencies]\ncandid.workspace = true\nic-cdk.workspace = true\nic-cdk-macros.workspace = true\nic-cdk-timers.workspace = true\nic-stable-structures.workspace = true\nserde.workspace = true\nserde_bytes.workspace = true\nhex.workspace = true\n\nic-web3-rs.workspace = true\nic-solidity-bindgen.workspace = true\nchainsight-cdk-macros.workspace = true\nchainsight-cdk.workspace = true\n\n");
    res.append(joined.as_str());
    res.append("\n");
    assert(res@ =~= accessors_cargo_toml_spec(project_name@, views(dependencies@)));
    res
}

/// The manifest of a component's canister crate.
pub open spec fn canister_project_cargo_toml_spec(name: Seq<char>, with_bindings: bool) -> Seq<char> {
    "[package]\nname = \""@ + canister_name_spec(name) + "\"\nversion.workspace = true\nedition.workspace = true\n\n[lib]\ncrate-type = [\"cdylib\"]\n\n[dependencies]\ncandid.workspace = true\nic-cdk.workspace = true\nic-cdk-macros.workspace = true\nic-cdk-timers.workspace = true\nic-stable-structures.workspace = true\nserde.workspace = true\nserde_bytes.workspace = true\nhex.workspace = true\n\nic-web3-rs.workspace = true\nic-solidity-bindgen.workspace = true\nchainsight-cdk-macros.workspace = true\nchainsight-cdk.workspace = true\n\nciborium = \"0.2.1\"\n\n"@ + logic_dependency_spec(name) + "\n"@ + (if with_bindings { bindings_dependency_spec(name) } else { Seq::<char>::empty() }) + "\n"@
}

pub fn canister_project_cargo_toml(project_name: &str, with_bindings: bool) -> (res: String)
    ensures
        res@ == canister_project_cargo_toml_spec(project_name@, with_bindings),
{
    let can_name = canister_name(project_name);
    let logic = logic_dependency(project_name);
    let bindings = if with_bindings { bindings_dependency(project_name) } else { String::new() };
    let mut res = String::new();
    res.append("[package]\nname = \"");
    res.append(can_name.as_str());
    res.append("\"\nversion.workspace = true\nedition.workspace = true\n\n[lib]\ncrate-type = [\"cdylib\"]\n\n[dependencies]\ncandid.workspace = true\nic-cdk.workspace = true\nic-cdk-macros.workspace = true\nic-cdk-timers.workspace = true\nic-stable-structures.workspace = true\nserde.workspace = true\nserde_bytes.workspace = true\nhex.workspace = true\n\nic-web3-rs.workspace = true\nic-solidity-bindgen.workspace = true\nchainsight-cdk-macros.workspace = true\nchainsight-cdk.workspace = true\n\nciborium = \"0.2.1\"\n\n");
    res.append(logic.as_str());
    res.append("\n");
    res.append(bindings.as_str());
    res.append("\n");
    assert(res@ =~= canister_project_cargo_toml_spec(project_name@, with_bindings));
    res
}

/// The manifest of a component's bindings crate.
pub open spec fn bindings_cargo_toml_spec(component: Seq<char>) -> Seq<char> {
    "[package]\nname = \""@ + bindings_name_spec(component) + "\"\nversion.workspace = true\nedition.workspace = true\n\n[lib]\ncrate-type = [\"rlib\"]\n\n[dependencies]\ncandid.workspace = true\nic-cdk.workspace = true\nic-stable-structures.workspace = true\nserde.workspace = true\nserde_bytes.workspace = true\n\nchainsight-cdk-macros.workspace = true\nchainsight-cdk.workspace = true\n"@
}

pub fn bindings_cargo_toml(component: &str) -> (res: String)
    ensures
        res@ == bindings_cargo_toml_spec(component@),
{
    let b_name = bindings_name(component);
    let mut res = String::new();
    res.append("[package]\nname = \"");
    res.append(b_name.as_str());
    res.append("\"\nversion.workspace = true\nedition.workspace = true\n\n[lib]\ncrate-type = [\"rlib\"]\n\n[dependencies]\ncandid.workspace = true\nic-cdk.workspace = true\nic-stable-structures.workspace = true\nserde.workspace = true\nserde_bytes.workspace = true\n\nchainsight-cdk-macros.workspace = true\nchainsight-cdk.workspace = true\n");
    assert(res@ =~= bindings_cargo_toml_spec(component@));
    res
}

/// The `dfx.json` entry of one canister.
pub open spec fn dfx_canister_entry(label: Seq<char>) -> Seq<char> {
    "    \""@ + label + "\": {\n      \"type\": \"custom\",\n      \"candid\": \"./"@ + label + ".did\",\n      \"wasm\": \"./"@ + label + ".wasm\",\n      \"metadata\": [\n        {\n          \"name\": \"candid:service\",\n          \"visibility\": \"public\"\n        }\n      ]\n    }"@
}

fn dfx_canister_entry_text(label: &str) -> (res: String)
    ensures
        res@ == dfx_canister_entry(label@),
{
    let mut res = String::new();
    res.append("    \"");
    res.append(label);
    res.append("\": {\n      \"type\": \"custom\",\n      \"candid\": \"./");
    res.append(label);
    res.append(".did\",\n      \"wasm\": \"./");
    res.append(label);
    res.append(".wasm\",\n      \"metadata\": [\n        {\n          \"name\": \"candid:service\",\n          \"visibility\": \"public\"\n        }\n      ]\n    }");
    assert(res@ =~= dfx_canister_entry(label@));
    res
}

/// The `dfx.json` of a generated project with the given canisters.
pub open spec fn dfx_json_spec(ids: Seq<Seq<char>>) -> Seq<char> {
    "{\n  \"version\": 1,\n  \"canisters\": {\n"@ + join_spec(ids.map_values(|l: Seq<char>| dfx_canister_entry(l)), ",\n"@) + "\n  },\n  \"defaults\": {\n    \"build\": {\n      \"packtool\": \"\",\n      \"args\": \"\"\n    }\n  },\n  \"output_env_file\": \".env\"\n}\n"@
}

pub fn dfx_json(project_ids: Vec<String>) -> (res: String)
    ensures
        res@ == dfx_json_spec(views(project_ids@)),
{
    let mut entries: Vec<String> = Vec::new();
    let mut i: usize = 0;
    while i < project_ids.len()
        invariant
            i <= project_ids@.len(),
            views(entries@) =~= views(project_ids@).take(i as int).map_values(|l: Seq<char>| dfx_canister_entry(l)),
        decreases project_ids@.len() - i,
    {
        let e = dfx_canister_entry_text(project_ids[i].as_str());
        let ghost before = views(entries@);
        let ghost ev = e@;
        entries.push(e);
        assert(views(entries@) =~= before.push(ev));
        assert(views(project_ids@).take(i + 1) =~= views(project_ids@).take(i as int).push(project_ids@[i as int]@));
        assert(views(project_ids@).take(i + 1).map_values(|l: Seq<char>| dfx_canister_entry(l))
            =~= views(project_ids@).take(i as int).map_values(|l: Seq<char>| dfx_canister_entry(l)).push(ev));
        i = i + 1;
    }
    assert(views(project_ids@).take(i as int) =~= views(project_ids@));
    let joined = join(&entries, ",\n");
    let mut res = String::new();
    res.append("{\n  \"version\": 1,\n  \"canisters\": {\n");
    res.append(joined.as_str());
    res.append("\n  },\n  \"defaults\": {\n    \"build\": {\n      \"packtool\": \"\",\n      \"args\": \"\"\n    }\n  },\n  \"output_env_file\": \".env\"\n}\n");
    assert(res@ =~= dfx_json_spec(views(project_ids@)));
    res
}

/// The `.gitignore` of a generated project.
pub open spec fn gitignore_spec() -> Seq<char> {
    "src/__interfaces\nsrc/accessors\nsrc/bindings\nsrc/canisters\nsrc/target\n/artifacts/*\n!/artifacts/dfx.json\n!/artifacts/canister_ids.json\n.env\n"@
}

pub fn gitignore() -> (res: String)
    ensures
        res@ == gitignore_spec(),
{
    String::from_str("src/__interfaces\nsrc/accessors\nsrc/bindings\nsrc/canisters\nsrc/target\n/artifacts/*\n!/artifacts/dfx.json\n!/artifacts/canister_ids.json\n.env\n")
}

} // verus!
