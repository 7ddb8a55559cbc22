//! Small checks shared by the manifest validators.

use vstd::prelude::*;
use crate::text::{views, text_eq, replace_all, replace_str};
use crate::paths::{canister_did_path_str, canister_did_path_spec};

verus! {

/// The values that repeat an earlier value, in the order they occur: a value
/// that occurs `k` times is listed `k - 1` times.
pub open spec fn duplicates(s: Seq<Seq<char>>) -> Seq<Seq<char>>
    decreases s.len(),
{
    if s.len() == 0 {
        Seq::empty()
    } else if s.drop_last().contains(s.last()) {
        duplicates(s.drop_last()).push(s.last())
    } else {
        duplicates(s.drop_last())
    }
}

/// Outputs the duplicate values among `values`.
pub fn find_duplicates(values: &[String]) -> (res: Vec<String>)
    ensures
        views(res@) == duplicates(views(values@)),
{
    let mut res: Vec<String> = Vec::new();
    let mut i: usize = 0;
    assert(views(values@).take(0) =~= Seq::<Seq<char>>::empty());
    while i < values.len()
        invariant
            i <= values@.len(),
            views(res@) == duplicates(views(values@).take(i as int)),
        decreases values@.len() - i,
    {
        let ghost pre = views(values@).take(i as int);
        let ghost cur = values@[i as int]@;
        assert(views(values@).take(i + 1).drop_last() =~= pre);
        assert(views(values@).take(i + 1).last() == cur);
        let mut seen = false;
        let mut j: usize = 0;
        while j < i
            invariant
                i < values@.len(),
                j <= i,
                pre == views(values@).take(i as int),
                cur == values@[i as int]@,
                seen == exists|k: int| 0 <= k < j && pre[k] == cur,
            decreases i - j,
        {
            if text_eq(values[j].as_str(), values[i].as_str()) {
                seen = true;
            }
            assert(pre[j as int] == values@[j as int]@);
            j = j + 1;
        }
        proof {
            if seen {
                let k = choose|k: int| 0 <= k < i && pre[k] == cur;
                assert(pre.contains(cur));
            } else {
                if pre.contains(cur) {
                    let k = choose|k: int| 0 <= k < pre.len() && pre[k] == cur;
                    assert(false);
                }
            }
        }
        if seen {
            let ghost before = views(res@);
            res.push(values[i].clone());
            assert(views(res@) =~= before.push(cur));
        }
        i = i + 1;
    }
    assert(views(values@).take(values@.len() as int) =~= views(values@));
    res
}

/// No value is listed as a duplicate exactly when all values differ.
pub proof fn law_no_duplicates_iff_distinct(s: Seq<Seq<char>>)
    ensures
        duplicates(s).len() == 0 <==> (forall|i: int, j: int| 0 <= i < j < s.len() ==> s[i] != s[j]),
    decreases s.len(),
{
    if s.len() > 0 {
        let t = s.drop_last();
        law_no_duplicates_iff_distinct(t);
        lemma_duplicates_len(t);
        if duplicates(s).len() == 0 {
            assert(!t.contains(s.last()));
            assert forall|i: int, j: int| 0 <= i < j < s.len() implies s[i] != s[j] by {
                if j == s.len() - 1 {
                    if s[i] == s[j] {
                        assert(t[i] == s.last());
                    }
                } else {
                    assert(t[i] == s[i] && t[j] == s[j]);
                }
            }
        } else {
            if t.contains(s.last()) {
                let k = choose|k: int| 0 <= k < t.len() && t[k] == s.last();
                assert(s[k] == s[s.len() - 1]);
            } else {
                let (a, b) = choose|a: int, b: int| 0 <= a < b < t.len() && t[a] == t[b];
                assert(s[a] == s[b]);
            }
        }
    }
}

proof fn lemma_duplicates_len(s: Seq<Seq<char>>)
    ensures
        duplicates(s).len() <= s.len(),
    decreases s.len(),
{
    if s.len() > 0 {
        lemma_duplicates_len(s.drop_last());
    }
}


/// The name of the file that marks a project root.
pub const CHAINSIGHT_FILENAME: &'static str = ".chainsight";
/// The name of a project's manifest.
pub const PROJECT_MANIFEST_FILENAME: &'static str = "project.yaml";
/// The manifest format version the tool writes.
pub const PROJECT_MANIFEST_VERSION: &'static str = "v1";
pub const DOTENV_FILENAME: &'static str = ".env";
pub const GITIGNORE_FILENAME: &'static str = ".gitignore";
pub const ARTIFACTS_DIR: &'static str = "artifacts";
/// The Rust type of a 256-bit unsigned integer in generated code.
pub const U256_TYPE: &'static str = "ic_web3_rs::types::U256";
/// The Rust type of an address in generated code.
pub const ADDRESS_TYPE: &'static str = "ic_web3_rs::types::Address";

/// Calls `std::path::Path::exists`. Nothing is claimed: the answer depends
/// on the file system at the time of the call.
#[verifier::external_body]
fn path_exists(path: &str) -> bool {
    std::path::Path::new(path).exists()
}

/// The refusal of a directory that is not a project root.
pub open spec fn not_project_message(dir: Seq<char>) -> Seq<char> {
    "'"@ + dir + "' is not a chainsight project root (no '.chainsight' file exists)."@
}

/// The answer on a directory, given whether a `.chainsight` file was found
/// in it: `Ok` where it was, the refusal of the directory where not.
pub fn project_root_check(dir: &str, marker_found: bool) -> (res: Result<(), String>)
    ensures
        marker_found ==> res is Ok,
        !marker_found ==> (res matches Err(e) && e@ == not_project_message(dir@)),
{
    if !marker_found {
        let mut msg = String::from_str("'");
        msg.append(dir);
        msg.append("' is not a chainsight project root (no '.chainsight' file exists).");
        return Err(msg);
    }
    Ok(())
}

/// Checks that `path` (the current directory if none is given) holds a
/// `.chainsight` file. Whether it does is the file system's answer; the
/// result is `project_root_check`'s on that answer.
pub fn is_chainsight_project(path: Option<String>) -> (res: Result<(), String>)
    ensures
        res matches Err(e) ==> e@ == not_project_message(match path { Some(p) => p@, None => "."@ }),
{
    let path_str = match path {
        Some(p) => p,
        None => String::from_str("."),
    };
    let marker = crate::identity::join_path(path_str.as_str(), ".chainsight");
    let found = path_exists(marker.as_str());
    project_root_check(path_str.as_str(), found)
}

/// What Inflector's `to_snake_case` gives for a text.
pub uninterp spec fn snake_case_of(s: Seq<char>) -> Seq<char>;

/// Calls `inflector::cases::snakecase::to_snake_case`. Claimed: the named
/// result of `s`.
#[verifier::external_body]
fn to_snake_case(s: &str) -> (res: String)
    ensures
        res@ == snake_case_of(s@),
{
    inflector::cases::snakecase::to_snake_case(s)
}

/// Converts a camelCase name to snake_case, as the generated bindings name
/// contract methods.
pub fn convert_camel_to_snake(val: &str) -> (res: String)
    ensures
        res@ == snake_case_of(val@),
{
    to_snake_case(val)
}

/// `${name}`: how a manifest refers to an environment variable.
pub open spec fn env_placeholder(name: Seq<char>) -> Seq<char> {
    "${"@ + name + "}"@
}

/// The text with every variable's placeholder replaced by its value, the
/// variables taken in order.
pub open spec fn substitute_vars(contents: Seq<char>, vars: Seq<(Seq<char>, Seq<char>)>) -> Seq<char>
    decreases vars.len(),
{
    if vars.len() == 0 {
        contents
    } else {
        replace_all(substitute_vars(contents, vars.drop_last()), env_placeholder(vars.last().0), vars.last().1)
    }
}

pub open spec fn var_views(vars: Seq<(String, String)>) -> Seq<(Seq<char>, Seq<char>)> {
    vars.map_values(|p: (String, String)| (p.0@, p.1@))
}

/// Replaces `${NAME}` by the value of each variable `NAME`.
pub fn load_env(contents: &str, vars: &Vec<(String, String)>) -> (res: String)
    ensures
        res@ == substitute_vars(contents@, var_views(vars@)),
{
    let mut res = String::from_str(contents);
    let mut i: usize = 0;
    assert(var_views(vars@).take(0) =~= Seq::<(Seq<char>, Seq<char>)>::empty());
    while i < vars.len()
        invariant
            i <= vars@.len(),
            res@ == substitute_vars(contents@, var_views(vars@).take(i as int)),
        decreases vars@.len() - i,
    {
        let mut pat = String::from_str("${");
        pat.append(vars[i].0.as_str());
        pat.append("}");
        proof { reveal_strlit("${"); }
        assert(pat@.len() > 0);
        let next = replace_str(res.as_str(), pat.as_str(), vars[i].1.as_str());
        assert(var_views(vars@).take(i + 1).drop_last() =~= var_views(vars@).take(i as int));
        res = next;
        i = i + 1;
    }
    assert(var_views(vars@).take(i as int) =~= var_views(vars@));
    res
}


/// Calls `std::path::Path::is_file`. Nothing is claimed: the answer depends
/// on the file system at the time of the call.
#[verifier::external_body]
fn is_file(path: &str) -> bool {
    std::path::Path::new(path).is_file()
}

/// The path of a component's candid file, `src/canisters/<id>/<id>.did`,
/// where it is a file, and `None` where not.
pub fn did_path_if_file(component_id: &str, path_is_file: bool) -> (res: Option<String>)
    ensures
        path_is_file ==> (res matches Some(p) && p@ == canister_did_path_spec("src"@, component_id@)),
        !path_is_file ==> res is None,
{
    if path_is_file { Some(canister_did_path_str("src", component_id)) } else { None }
}

/// The candid file of a component of the current project, if it has been
/// generated: `src/canisters/<id>/<id>.did`. Whether it has is the file
/// system's answer; the result is `did_path_if_file`'s on that answer.
pub fn get_did_by_component_id(component_id: &str) -> (res: Option<String>)
    ensures
        res matches Some(p) ==> p@ == canister_did_path_spec("src"@, component_id@),
{
    let path = canister_did_path_str("src", component_id);
    let found = is_file(path.as_str());
    did_path_if_file(component_id, found)
}

} // verus!
