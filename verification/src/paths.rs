//! Where the parts of a generated project live, and the names and Cargo
//! dependency lines of its crates.

use vstd::prelude::*;

verus! {

/// `<root>/src`
pub open spec fn src_path_spec(root: Seq<char>) -> Seq<char> {
    root + "/src"@
}

/// `<src>/logics/<component>`
pub open spec fn logics_path_spec(src: Seq<char>, component: Seq<char>) -> Seq<char> {
    src + "/logics/"@ + component
}

/// `<src>/canisters/<component>`
pub open spec fn canisters_path_spec(src: Seq<char>, component: Seq<char>) -> Seq<char> {
    src + "/canisters/"@ + component
}

/// `<src>/canisters/<component>/<component>.did`
pub open spec fn canister_did_path_spec(src: Seq<char>, component: Seq<char>) -> Seq<char> {
    canisters_path_spec(src, component) + "/"@ + component + ".did"@
}

/// `<component>_canister`
pub open spec fn canister_name_spec(component: Seq<char>) -> Seq<char> {
    component + "_canister"@
}

/// `<component>_bindings`
pub open spec fn bindings_name_spec(component: Seq<char>) -> Seq<char> {
    component + "_bindings"@
}

/// `<component>_accessors`
pub open spec fn accessors_name_spec(component: Seq<char>) -> Seq<char> {
    component + "_accessors"@
}

/// `<src>/bindings/<component>_bindings`
pub open spec fn bindings_path_spec(src: Seq<char>, component: Seq<char>) -> Seq<char> {
    src + "/bindings/"@ + bindings_name_spec(component)
}

/// `<src>/accessors/<component>_accessors`
pub open spec fn accessors_path_spec(src: Seq<char>, component: Seq<char>) -> Seq<char> {
    src + "/accessors/"@ + accessors_name_spec(component)
}

/// A Cargo dependency line `<name> = { path = "../../<dir>/<name>" }`.
pub open spec fn path_dependency_spec(name: Seq<char>, dir: Seq<char>) -> Seq<char> {
    name + " = { path = \"../../"@ + dir + "/"@ + name + "\" }"@
}

pub open spec fn logic_dependency_spec(component: Seq<char>) -> Seq<char> {
    path_dependency_spec(component, "logics"@)
}

pub open spec fn bindings_dependency_spec(component: Seq<char>) -> Seq<char> {
    path_dependency_spec(bindings_name_spec(component), "bindings"@)
}

pub open spec fn accessors_dependency_spec(component: Seq<char>) -> Seq<char> {
    path_dependency_spec(accessors_name_spec(component), "accessors"@)
}

pub fn src_path_str(root: &str) -> (res: String)
    ensures
        res@ == src_path_spec(root@),
{
    let mut res = String::from_str(root);
    res.append("/src");
    res
}

pub fn logics_path_str(src: &str, component: &str) -> (res: String)
    ensures
        res@ == logics_path_spec(src@, component@),
{
    let mut res = String::from_str(src);
    res.append("/logics/");
    res.append(component);
    res
}

pub fn canisters_path_str(src: &str, component: &str) -> (res: String)
    ensures
        res@ == canisters_path_spec(src@, component@),
{
    let mut res = String::from_str(src);
    res.append("/canisters/");
    res.append(component);
    res
}

pub fn canister_did_path_str(src: &str, component: &str) -> (res: String)
    ensures
        res@ == canister_did_path_spec(src@, component@),
{
    let mut res = canisters_path_str(src, component);
    res.append("/");
    res.append(component);
    res.append(".did");
    res
}

pub fn bindings_path_str(src: &str, component: &str) -> (res: String)
    ensures
        res@ == bindings_path_spec(src@, component@),
{
    let name = bindings_name(component);
    let mut res = String::from_str(src);
    res.append("/bindings/");
    res.append(name.as_str());
    res
}

pub fn accessors_path_str(src: &str, component: &str) -> (res: String)
    ensures
        res@ == accessors_path_spec(src@, component@),
{
    let name = accessors_name(component);
    let mut res = String::from_str(src);
    res.append("/accessors/");
    res.append(name.as_str());
    res
}

pub fn canister_name(component: &str) -> (res: String)
    ensures
        res@ == canister_name_spec(component@),
{
    let mut res = String::from_str(component);
    res.append("_canister");
    res
}

pub fn bindings_name(component: &str) -> (res: String)
    ensures
        res@ == bindings_name_spec(component@),
{
    let mut res = String::from_str(component);
    res.append("_bindings");
    res
}

pub fn accessors_name(component: &str) -> (res: String)
    ensures
        res@ == accessors_name_spec(component@),
{
    let mut res = String::from_str(component);
    res.append("_accessors");
    res
}

fn path_dependency(name: &str, dir: &str) -> (res: String)
    ensures
        res@ == path_dependency_spec(name@, dir@),
{
    let mut res = String::from_str(name);
    res.append(" = { path = \"../../");
    res.append(dir);
    res.append("/");
    res.append(name);
    res.append("\" }");
    res
}

pub fn logic_dependency(component: &str) -> (res: String)
    ensures
        res@ == logic_dependency_spec(component@),
{
    path_dependency(component, "logics")
}

pub fn bindings_dependency(component: &str) -> (res: String)
    ensures
        res@ == bindings_dependency_spec(component@),
{
    let name = bindings_name(component);
    path_dependency(name.as_str(), "bindings")
}

pub fn accessors_dependency(component: &str) -> (res: String)
    ensures
        res@ == accessors_dependency_spec(component@),
{
    let name = accessors_name(component);
    path_dependency(name.as_str(), "accessors")
}

} // verus!
