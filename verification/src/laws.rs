//! Properties that span several operations of the library.

use vstd::prelude::*;
use crate::component_ids::{ComponentIdsManager, with_id, components_wf, component_pairs, record_views, restore_all, lemma_restore_all};
use crate::assoc::assoc;
use crate::algorithm_lens::{AlgorithmLensComponentManifest, validate_manifest_spec, method_ids};
use crate::utils::{duplicates, law_no_duplicates_iff_distinct, substitute_vars, env_placeholder};
use crate::types::ComponentType;
use crate::templates::{component_members, workspace_members, logic_cargo_toml_spec};
use crate::text::contains_text_spec;
use crate::abi::{AbiType, rust_type_spec, u256_type, address_type, unimplemented_type};
use crate::canister_code::queries_without_timestamp_spec;
use crate::rpc_url::{ipv6_verdict_spec, no_ipv6_message};
use crate::paths::{bindings_dependency_spec, accessors_dependency_spec};
use crate::method_identifier::{kept_lines, kept_line};
use crate::paths::{canisters_path_spec, logics_path_spec};
use crate::text::replace_all;
use crate::common::function_name_spec;
use crate::method_identifier::{find_char, lemma_find_char_found};
use crate::dfx::{network_path_spec, without_trailing_newline, is_newline};

verus! {

/// What a record holds after `add(name, id)` was applied to `before`.
pub open spec fn added(before: ComponentIdsManager, after: ComponentIdsManager, name: Seq<char>, id: Seq<char>) -> bool {
    &&& after.ids() == before.ids().insert(
        name,
        with_id(if before.ids().contains_key(name) { Some(before.ids()[name]) } else { None }, network_path_spec(before.network()), id),
    )
    &&& after.network() == before.network()
}

/// After `add(name, id)`, `get(name)` gives `id` and `contains_key(name)`
/// holds; every other component keeps what it had, and so does `name` on
/// every other network.
pub proof fn law_add_then_get(before: ComponentIdsManager, after: ComponentIdsManager, name: Seq<char>, id: Seq<char>)
    requires
        added(before, after, name, id),
    ensures
        after.ids().contains_key(name),
        after.ids()[name].contains_key(network_path_spec(after.network())),
        after.ids()[name][network_path_spec(after.network())] == id,
        forall|other: Seq<char>| other != name ==> (#[trigger] after.ids().contains_key(other) <==> before.ids().contains_key(other)),
        forall|other: Seq<char>| other != name && before.ids().contains_key(other) ==> #[trigger] after.ids()[other] == before.ids()[other],
        forall|net: Seq<char>| net != network_path_spec(after.network()) && before.ids().contains_key(name) ==>
            (#[trigger] after.ids()[name].contains_key(net) <==> before.ids()[name].contains_key(net))
            && (before.ids()[name].contains_key(net) ==> after.ids()[name][net] == before.ids()[name][net]),
{
}

/// Adding the same id twice changes nothing the second time.
pub proof fn law_add_idempotent(m0: ComponentIdsManager, m1: ComponentIdsManager, m2: ComponentIdsManager, name: Seq<char>, id: Seq<char>)
    requires
        added(m0, m1, name, id),
        added(m1, m2, name, id),
    ensures
        m2.ids() == m1.ids(),
{
    assert(m1.ids()[name].insert(network_path_spec(m1.network()), id) =~= m1.ids()[name]);
    assert(m2.ids() =~= m1.ids());
}

/// Saving a record and loading it back gives the same ids: the entries
/// `records` lists for a record, put back in order into a new record, hold
/// exactly the ids of the first.
pub proof fn law_saved_record_reloads(m: ComponentIdsManager, saved: Seq<(String, Vec<(String, String)>)>)
    requires
        assoc(component_pairs(saved)) == m.ids(),
        components_wf(saved),
    ensures
        restore_all(record_views(saved)) == m.ids(),
{
    lemma_restore_all(saved);
}

/// A lens manifest is accepted exactly when it describes a lens and no two
/// of the components it reads have the same id.
pub proof fn law_lens_manifest_valid_iff_distinct_ids(m: AlgorithmLensComponentManifest)
    ensures
        validate_manifest_spec(m) is Ok <==> (m.metadata.type_ == ComponentType::AlgorithmLens
            && forall|i: int, j: int| 0 <= i < j < m.datasource.methods@.len() ==>
                #[trigger] method_ids(m.datasource.methods@)[i] != #[trigger] method_ids(m.datasource.methods@)[j]),
{
    law_no_duplicates_iff_distinct(method_ids(m.datasource.methods@));
}

/// The member of the workspace at position `j` of the component part: the
/// canister crate at even positions, the logic crate at odd ones.
pub open spec fn component_member_at(ids: Seq<Seq<char>>, j: int) -> Seq<char> {
    if j % 2 == 0 { "canisters/"@ + ids[j / 2] } else { "logics/"@ + ids[j / 2] }
}

proof fn lemma_component_members(ids: Seq<Seq<char>>)
    ensures
        component_members(ids).len() == 2 * ids.len(),
        forall|j: int| 0 <= j < 2 * ids.len() ==> #[trigger] component_members(ids)[j] == component_member_at(ids, j),
    decreases ids.len(),
{
    if ids.len() > 0 {
        let t = ids.drop_last();
        lemma_component_members(t);
        let n = t.len();
        assert forall|j: int| 0 <= j < 2 * ids.len() implies #[trigger] component_members(ids)[j] == component_member_at(ids, j) by {
            if j < 2 * n {
                assert(component_members(ids)[j] == component_members(t)[j]);
                assert(t[j / 2] == ids[j / 2]);
            } else if j == 2 * n {
                assert(j / 2 == n && j % 2 == 0);
            } else {
                assert(j / 2 == n && j % 2 == 1);
            }
        }
    }
}

/// The workspace of a generated project lists, for each component in
/// order, its canister crate and then its logic crate; then the bindings
/// crates and the accessors crates where asked for, and nothing else.
pub proof fn law_workspace_lists_every_component(ids: Seq<Seq<char>>, with_bindings: bool, with_accessors: bool)
    ensures
        workspace_members(ids, with_bindings, with_accessors).len()
            == 2 * ids.len() + (if with_bindings { 1int } else { 0int }) + (if with_accessors { 1int } else { 0int }),
        forall|j: int| 0 <= j < 2 * ids.len() ==>
            #[trigger] workspace_members(ids, with_bindings, with_accessors)[j] == component_member_at(ids, j),
        with_bindings ==> workspace_members(ids, with_bindings, with_accessors)[2 * ids.len() as int] == "bindings/*"@,
        with_accessors ==> workspace_members(ids, with_bindings, with_accessors).last() == "accessors/*"@,
{
    lemma_component_members(ids);
    let m = component_members(ids);
    assert forall|j: int| 0 <= j < 2 * ids.len() implies
        #[trigger] workspace_members(ids, with_bindings, with_accessors)[j] == component_member_at(ids, j) by {
        assert(m[j] == component_member_at(ids, j));
    }
}

/// Stripping generated code keeps no blank line and no comment line: every
/// kept line is neither empty nor starts with `//`.
pub proof fn law_stripped_lines_are_code(ls: Seq<Seq<char>>)
    ensures
        forall|i: int| 0 <= i < kept_lines(ls).len() ==> kept_line(#[trigger] kept_lines(ls)[i]),
        kept_lines(ls).len() <= ls.len(),
    decreases ls.len(),
{
    if ls.len() > 0 {
        law_stripped_lines_are_code(ls.drop_last());
    }
}

proof fn lemma_replace_absent(s: Seq<char>, pat: Seq<char>, rep: Seq<char>)
    requires
        pat.len() > 0,
        !s.contains(pat[0]),
    ensures
        replace_all(s, pat, rep) == s,
    decreases s.len(),
{
    if s.len() >= pat.len() {
        assert(s.take(pat.len() as int) != pat) by {
            if s.take(pat.len() as int) == pat {
                assert(s[0] == pat[0]);
            }
        }
        assert(!s.skip(1).contains(pat[0])) by {
            if s.skip(1).contains(pat[0]) {
                let k = choose|k: int| 0 <= k < s.skip(1).len() && s.skip(1)[k] == pat[0];
                assert(s[k + 1] == pat[0]);
            }
        }
        lemma_replace_absent(s.skip(1), pat, rep);
        assert(seq![s[0]] + s.skip(1) =~= s);
    }
}

/// A manifest without `$` is left as it is, whatever variables are set.
pub proof fn law_text_without_placeholders_unchanged(contents: Seq<char>, vars: Seq<(Seq<char>, Seq<char>)>)
    requires
        !contents.contains('$'),
    ensures
        substitute_vars(contents, vars) == contents,
    decreases vars.len(),
{
    if vars.len() > 0 {
        law_text_without_placeholders_unchanged(contents, vars.drop_last());
        reveal_strlit("${");
        assert(env_placeholder(vars.last().0)[0] == '$');
        lemma_replace_absent(contents, env_placeholder(vars.last().0), vars.last().1);
    }
}

/// Components with different names get different canister and logic
/// directories.
pub proof fn law_component_directories_distinct(src: Seq<char>, a: Seq<char>, b: Seq<char>)
    requires
        a != b,
    ensures
        canisters_path_spec(src, a) != canisters_path_spec(src, b),
        logics_path_spec(src, a) != logics_path_spec(src, b),
{
    let p = src + "/canisters/"@;
    let q = src + "/logics/"@;
    if canisters_path_spec(src, a) == canisters_path_spec(src, b) {
        assert((p + a).skip(p.len() as int) =~= a);
        assert((p + b).skip(p.len() as int) =~= b);
    }
    if logics_path_spec(src, a) == logics_path_spec(src, b) {
        assert((q + a).skip(q.len() as int) =~= a);
        assert((q + b).skip(q.len() as int) =~= b);
    }
}

proof fn lemma_remove_keeps_chars(s: Seq<char>, pat: Seq<char>, c: char)
    requires
        pat.len() > 0,
        replace_all(s, pat, Seq::empty()).contains(c),
    ensures
        s.contains(c),
    decreases s.len(),
{
    let r = replace_all(s, pat, Seq::empty());
    if !(s.len() < pat.len()) {
        if s.take(pat.len() as int) == pat {
            assert(r == Seq::<char>::empty() + replace_all(s.skip(pat.len() as int), pat, Seq::empty()));
            assert(r =~= replace_all(s.skip(pat.len() as int), pat, Seq::empty()));
            lemma_remove_keeps_chars(s.skip(pat.len() as int), pat, c);
            let k = choose|k: int| 0 <= k < s.skip(pat.len() as int).len() && s.skip(pat.len() as int)[k] == c;
            assert(s[k + pat.len()] == c);
        } else {
            let rest = replace_all(s.skip(1), pat, Seq::empty());
            assert(r == seq![s[0]] + rest);
            if s[0] != c {
                let k = choose|k: int| 0 <= k < r.len() && r[k] == c;
                assert(k > 0);
                assert(rest[k - 1] == c);
                lemma_remove_keeps_chars(s.skip(1), pat, c);
                let m = choose|m: int| 0 <= m < s.skip(1).len() && s.skip(1)[m] == c;
                assert(s[m + 1] == c);
            } else {
                assert(s[0] == c);
            }
        }
    }
}

proof fn lemma_remove_blank(s: Seq<char>)
    ensures
        !replace_all(s, " "@, Seq::empty()).contains(' '),
    decreases s.len(),
{
    reveal_strlit(" ");
    let r = replace_all(s, " "@, Seq::empty());
    if s.len() >= 1 {
        lemma_remove_blank(s.skip(1));
        if s.take(1) == " "@ {
            assert(r =~= replace_all(s.skip(1), " "@, Seq::empty()));
        } else {
            assert(s[0] != ' ') by {
                if s[0] == ' ' {
                    assert(s.take(1) =~= " "@);
                }
            }
            let rest = replace_all(s.skip(1), " "@, Seq::empty());
            assert(r == seq![s[0]] + rest);
            if r.contains(' ') {
                let k = choose|k: int| 0 <= k < r.len() && r[k] == ' ';
                assert(rest[k - 1] == ' ');
            }
        }
    }
}

/// The name taken from a method identifier that holds a `:` has neither a
/// blank nor a `:` in it.
pub proof fn law_function_name_has_no_blank_or_colon(identifier: Seq<char>)
    requires
        identifier.contains(':'),
    ensures
        !function_name_spec(identifier).contains(' '),
        !function_name_spec(identifier).contains(':'),
{
    reveal_strlit(" ");
    reveal_strlit("()");
    lemma_find_char_found(identifier, ':');
    lemma_find_char_some(identifier, ':');
    let k = find_char(identifier, ':')->0;
    let head = identifier.take(k as int);
    let a = replace_all(head, " "@, Seq::empty());
    let b = replace_all(a, "()"@, Seq::empty());
    assert(""@ =~= Seq::<char>::empty()) by { reveal_strlit(""); }
    assert(function_name_spec(identifier) == b);
    lemma_remove_blank(head);
    if b.contains(' ') {
        lemma_remove_keeps_chars(a, "()"@, ' ');
    }
    if b.contains(':') {
        lemma_remove_keeps_chars(a, "()"@, ':');
        lemma_remove_keeps_chars(head, " "@, ':');
        let j = choose|j: int| 0 <= j < head.len() && head[j] == ':';
        lemma_find_char_first(identifier, ':', j);
    }
}

proof fn lemma_find_char_some(s: Seq<char>, c: char)
    requires
        s.contains(c),
    ensures
        find_char(s, c) is Some,
    decreases s.len(),
{
    if s[0] != c {
        let k = choose|k: int| 0 <= k < s.len() && s[k] == c;
        assert(s.skip(1)[k - 1] == c);
        lemma_find_char_some(s.skip(1), c);
    }
}

proof fn lemma_find_char_first(s: Seq<char>, c: char, j: int)
    requires
        0 <= j < s.len(),
        s[j] == c,
        find_char(s, c) is Some,
    ensures
        find_char(s, c)->0 <= j,
    decreases s.len(),
{
    if s[0] != c {
        assert(s.skip(1)[j - 1] == c);
        lemma_find_char_first(s.skip(1), c, j - 1);
    }
}

/// The output of a dfx command, once its final line breaks are removed,
/// ends in no line break, and removing them again changes nothing.
pub proof fn law_cleaned_output_is_stable(s: Seq<char>)
    ensures
        without_trailing_newline(s).len() == 0 || !is_newline(without_trailing_newline(s).last()),
        without_trailing_newline(without_trailing_newline(s)) == without_trailing_newline(s),
    decreases s.len(),
{
    if s.len() > 0 && is_newline(s.last()) {
        law_cleaned_output_is_stable(s.drop_last());
    }
}

/// A logic crate's manifest reads its dependencies only for whether there
/// are any: two lists that are both empty, or both not, give the same text.
pub proof fn law_logic_manifest_reads_only_whether_dependencies(
    name: Seq<char>,
    with_bindings: bool,
    d1: Seq<Seq<char>>,
    d2: Seq<Seq<char>>,
)
    requires
        (d1.len() == 0) == (d2.len() == 0),
    ensures
        logic_cargo_toml_spec(name, with_bindings, d1) == logic_cargo_toml_spec(name, with_bindings, d2),
{
}

proof fn lemma_contains_middle(a: Seq<char>, x: Seq<char>, b: Seq<char>)
    ensures
        contains_text_spec(a + x + b, x),
{
    assert((a + x + b).skip(a.len() as int).take(x.len() as int) =~= x);
}

/// A logic crate's manifest names the crate, depends on its bindings crate
/// where it has bindings, and on its accessors crate where it reads other
/// components.
pub proof fn law_logic_manifest_lists_its_crates(name: Seq<char>, with_bindings: bool, deps: Seq<Seq<char>>)
    ensures
        contains_text_spec(logic_cargo_toml_spec(name, with_bindings, deps), "name = \""@ + name + "\""@),
        with_bindings ==> contains_text_spec(logic_cargo_toml_spec(name, with_bindings, deps), bindings_dependency_spec(name)),
        deps.len() > 0 ==> contains_text_spec(logic_cargo_toml_spec(name, with_bindings, deps), accessors_dependency_spec(name)),
{
    let t = logic_cargo_toml_spec(name, with_bindings, deps);
    reveal_strlit("[package]\nname = \"");
    reveal_strlit("[package]\n");
    reveal_strlit("name = \"");
    reveal_strlit("\"");
    reveal_strlit("\"\nversion.workspace = true\nedition.workspace = true\n\n[lib]\ncrate-type = [\"rlib\"]\n\n[dependencies]\ncandid.workspace = true\nic-cdk.workspace = true\nic-cdk-macros.workspace = true\nic-cdk-timers.workspace = true\nic-stable-structures.workspace = true\nserde.workspace = true\nserde_bytes.workspace = true\nserde_json.workspace = true\nhex.workspace = true\n\nic-web3-rs.workspace = true\nic-solidity-bindgen.workspace = true\nchainsight-cdk-macros.workspace = true\nchainsight-cdk.workspace = true\n\n");
    let head = "[package]\nname = \""@;
    let tail = "\"\nversion.workspace = true\nedition.workspace = true\n\n[lib]\ncrate-type = [\"rlib\"]\n\n[dependencies]\ncandid.workspace = true\nic-cdk.workspace = true\nic-cdk-macros.workspace = true\nic-cdk-timers.workspace = true\nic-stable-structures.workspace = true\nserde.workspace = true\nserde_bytes.workspace = true\nserde_json.workspace = true\nhex.workspace = true\n\nic-web3-rs.workspace = true\nic-solidity-bindgen.workspace = true\nchainsight-cdk-macros.workspace = true\nchainsight-cdk.workspace = true\n\n"@;
    let bd = if with_bindings { bindings_dependency_spec(name) } else { Seq::<char>::empty() };
    let acc = if deps.len() == 0 { Seq::<char>::empty() } else { accessors_dependency_spec(name) };
    assert(t == head + name + tail + bd + "\n"@ + acc + "\n"@);
    let line = "name = \""@ + name + "\""@;
    assert(t =~= "[package]\n"@ + line + (tail.skip(1) + bd + "\n"@ + acc + "\n"@));
    lemma_contains_middle("[package]\n"@, line, tail.skip(1) + bd + "\n"@ + acc + "\n"@);
    if with_bindings {
        assert(t =~= (head + name + tail) + bd + ("\n"@ + acc + "\n"@));
        lemma_contains_middle(head + name + tail, bd, "\n"@ + acc + "\n"@);
    }
    if deps.len() > 0 {
        assert(t =~= (head + name + tail + bd + "\n"@) + acc + "\n"@);
        lemma_contains_middle(head + name + tail + bd + "\n"@, acc, "\n"@);
    }
}

/// The width in bits of a Rust unsigned integer type of generated code; 0
/// for any other type.
pub open spec fn unsigned_width(t: Seq<char>) -> int {
    if t == "u16"@ { 16 } else if t == "u32"@ { 32 } else if t == "u64"@ { 64 } else if t == "u128"@ { 128 } else { 0 }
}

/// The width in bits of a Rust signed integer type of generated code; 0 for
/// any other type.
pub open spec fn signed_width(t: Seq<char>) -> int {
    if t == "i8"@ { 8 } else if t == "i16"@ { 16 } else if t == "i32"@ { 32 } else if t == "i64"@ { 64 } else if t == "i128"@ { 128 } else { 0 }
}

proof fn lemma_integer_type_names_differ()
    ensures
        "u16"@ != "u32"@, "u16"@ != "u64"@, "u16"@ != "u128"@, "u32"@ != "u64"@, "u32"@ != "u128"@, "u64"@ != "u128"@,
        "i8"@ != "i16"@, "i8"@ != "i32"@, "i8"@ != "i64"@, "i8"@ != "i128"@, "i16"@ != "i32"@, "i16"@ != "i64"@,
        "i16"@ != "i128"@, "i32"@ != "i64"@, "i32"@ != "i128"@, "i64"@ != "i128"@,
{
    reveal_strlit("u16"); reveal_strlit("u32"); reveal_strlit("u64"); reveal_strlit("u128");
    reveal_strlit("i8"); reveal_strlit("i16"); reveal_strlit("i32"); reveal_strlit("i64"); reveal_strlit("i128");
    assert("u16"@[2] != "u32"@[2]);
    assert("u16"@[2] != "u64"@[2]);
    assert("u16"@.len() != "u128"@.len());
    assert("u32"@[2] != "u64"@[2]);
    assert("u32"@.len() != "u128"@.len());
    assert("u64"@.len() != "u128"@.len());
    assert("i8"@.len() != "i16"@.len());
    assert("i8"@.len() != "i32"@.len());
    assert("i8"@.len() != "i64"@.len());
    assert("i8"@.len() != "i128"@.len());
    assert("i16"@[2] != "i32"@[2]);
    assert("i16"@[2] != "i64"@[2]);
    assert("i16"@.len() != "i128"@.len());
    assert("i32"@[2] != "i64"@[2]);
    assert("i32"@.len() != "i128"@.len());
    assert("i64"@.len() != "i128"@.len());
}

/// An ABI unsigned integer of up to 128 bits becomes the narrowest Rust
/// unsigned type that holds it: wide enough for all `n` bits, and the next
/// narrower type (half as wide) would not be. Wider ones up to 256 bits
/// become the 256-bit type of generated code; any other width is refused.
pub proof fn law_unsigned_abi_integers_take_the_narrowest_fitting_type(n: usize)
    ensures
        1 <= n <= 128 ==> (rust_type_spec(AbiType::Uint(n)) matches Ok(t)
            && n <= unsigned_width(t) && (unsigned_width(t) == 16 || unsigned_width(t) / 2 < n)),
        129 <= n <= 256 ==> rust_type_spec(AbiType::Uint(n)) == Ok::<Seq<char>, Seq<char>>(u256_type()),
        (n == 0 || n > 256) ==> rust_type_spec(AbiType::Uint(n)) == Err::<Seq<char>, Seq<char>>(unimplemented_type()),
{
    lemma_integer_type_names_differ();
}

/// An ABI signed integer of up to 128 bits becomes the narrowest Rust
/// signed type that holds it: wide enough for all `n` bits, and the next
/// narrower type (half as wide) would not be. Any other width is refused.
pub proof fn law_signed_abi_integers_take_the_narrowest_fitting_type(n: usize)
    ensures
        1 <= n <= 128 ==> (rust_type_spec(AbiType::Int(n)) matches Ok(t)
            && n <= signed_width(t) && (signed_width(t) == 8 || signed_width(t) / 2 < n)),
        (n == 0 || n > 128) ==> rust_type_spec(AbiType::Int(n)) == Err::<Seq<char>, Seq<char>>(unimplemented_type()),
{
    lemma_integer_type_names_differ();
}

proof fn lemma_contains_suffix(a: Seq<char>, x: Seq<char>)
    ensures
        contains_text_spec(a + x, x),
{
    assert((a + x).skip(a.len() as int).take(x.len() as int) =~= x);
}

proof fn lemma_contains_extend(u: Seq<char>, v: Seq<char>, x: Seq<char>)
    requires
        contains_text_spec(u, x),
    ensures
        contains_text_spec(u + v, x),
{
    let i = choose|i: int| 0 <= i && i + x.len() <= u.len() && #[trigger] u.skip(i).take(x.len() as int) == x;
    assert((u + v).skip(i).take(x.len() as int) =~= u.skip(i).take(x.len() as int));
}

/// The value queries of a snapshot stored with timestamps read what they
/// name: the last value reads the last snapshot, the top `n` values read
/// the top `n` snapshots, and the value at `idx` reads the snapshot at
/// `idx`; the public query for the value at `idx` answers with that reader.
pub proof fn law_snapshot_value_queries_read_what_they_name(ty: Seq<char>)
    ensures
        contains_text_spec(queries_without_timestamp_spec(ty),
            "fn _get_last_snapshot_value() -> "@ + ty + " {\n    get_last_snapshot().value\n}\n\n"@),
        contains_text_spec(queries_without_timestamp_spec(ty),
            "fn _get_top_snapshot_values(n: u64) -> Vec<"@ + ty + "> {\n    get_top_snapshots(n).iter().map(|s| s.value.clone()).collect()\n}\n\n"@),
        contains_text_spec(queries_without_timestamp_spec(ty),
            "fn _get_snapshot_value(idx: u64) -> "@ + ty + " {\n    get_snapshot(idx).value\n}\n\n"@),
        contains_text_spec(queries_without_timestamp_spec(ty),
            "#[ic_cdk::query]\n#[candid::candid_method(query)]\npub fn get_snapshot_value(idx: u64) -> "@ + ty + " {\n    _get_snapshot_value(idx)\n}\n\n"@),
{
    let l1 = "fn _get_last_snapshot_value() -> "@ + ty + " {\n    get_last_snapshot().value\n}\n\n"@;
    let l2 = "fn _get_top_snapshot_values(n: u64) -> Vec<"@ + ty + "> {\n    get_top_snapshots(n).iter().map(|s| s.value.clone()).collect()\n}\n\n"@;
    let l3 = "fn _get_snapshot_value(idx: u64) -> "@ + ty + " {\n    get_snapshot(idx).value\n}\n\n"@;
    let l4 = "#[ic_cdk::query]\n#[candid::candid_method(query)]\npub fn get_last_snapshot_value() -> "@ + ty + " {\n    _get_last_snapshot_value()\n}\n\n"@;
    let l5 = "#[ic_cdk::query]\n#[candid::candid_method(query)]\npub fn get_top_snapshot_values(n: u64) -> Vec<"@ + ty + "> {\n    _get_top_snapshot_values(n)\n}\n\n"@;
    let l6 = "#[ic_cdk::query]\n#[candid::candid_method(query)]\npub fn get_snapshot_value(idx: u64) -> "@ + ty + " {\n    _get_snapshot_value(idx)\n}\n\n"@;
    let l7 = "#[ic_cdk::update]\n#[candid::candid_method(update)]\npub fn proxy_get_last_snapshot_value(input: std::vec::Vec<u8>) -> std::vec::Vec<u8> {\n    use chainsight_cdk::rpc::Receiver;\n    chainsight_cdk::rpc::ReceiverProviderWithoutArgs::<"@ + ty + ">::new(\n        proxy(),\n        _get_last_snapshot_value,\n    )\n    .reply(input)\n}\n\n"@;
    let l8 = "#[ic_cdk::update]\n#[candid::candid_method(update)]\npub fn proxy_get_top_snapshot_values(input: std::vec::Vec<u8>) -> std::vec::Vec<u8> {\n    use chainsight_cdk::rpc::Receiver;\n    chainsight_cdk::rpc::ReceiverProvider::<u64, Vec<"@ + ty + ">>::new(\n        proxy(),\n        _get_top_snapshot_values,\n    )\n    .reply(input)\n}\n\n"@;
    let l9 = "#[ic_cdk::update]\n#[candid::candid_method(update)]\npub fn proxy_get_snapshot_value(input: std::vec::Vec<u8>) -> std::vec::Vec<u8> {\n    use chainsight_cdk::rpc::Receiver;\n    chainsight_cdk::rpc::ReceiverProvider::<u64, "@ + ty + ">::new(\n        proxy(),\n        _get_snapshot_value,\n    )\n    .reply(input)\n}\n"@;
    let t = queries_without_timestamp_spec(ty);
    assert(t == l1 + l2 + l3 + l4 + l5 + l6 + l7 + l8 + l9);
    // the last-value reader
    assert(l1 =~= Seq::<char>::empty() + l1);
    lemma_contains_suffix(Seq::<char>::empty(), l1);
    lemma_contains_extend(l1, l2, l1);
    lemma_contains_extend(l1 + l2, l3, l1);
    lemma_contains_extend(l1 + l2 + l3, l4, l1);
    lemma_contains_extend(l1 + l2 + l3 + l4, l5, l1);
    lemma_contains_extend(l1 + l2 + l3 + l4 + l5, l6, l1);
    lemma_contains_extend(l1 + l2 + l3 + l4 + l5 + l6, l7, l1);
    lemma_contains_extend(l1 + l2 + l3 + l4 + l5 + l6 + l7, l8, l1);
    lemma_contains_extend(l1 + l2 + l3 + l4 + l5 + l6 + l7 + l8, l9, l1);
    // the top-values reader
    lemma_contains_suffix(l1, l2);
    lemma_contains_extend(l1 + l2, l3, l2);
    lemma_contains_extend(l1 + l2 + l3, l4, l2);
    lemma_contains_extend(l1 + l2 + l3 + l4, l5, l2);
    lemma_contains_extend(l1 + l2 + l3 + l4 + l5, l6, l2);
    lemma_contains_extend(l1 + l2 + l3 + l4 + l5 + l6, l7, l2);
    lemma_contains_extend(l1 + l2 + l3 + l4 + l5 + l6 + l7, l8, l2);
    lemma_contains_extend(l1 + l2 + l3 + l4 + l5 + l6 + l7 + l8, l9, l2);
    // the reader at an index
    lemma_contains_suffix(l1 + l2, l3);
    lemma_contains_extend(l1 + l2 + l3, l4, l3);
    lemma_contains_extend(l1 + l2 + l3 + l4, l5, l3);
    lemma_contains_extend(l1 + l2 + l3 + l4 + l5, l6, l3);
    lemma_contains_extend(l1 + l2 + l3 + l4 + l5 + l6, l7, l3);
    lemma_contains_extend(l1 + l2 + l3 + l4 + l5 + l6 + l7, l8, l3);
    lemma_contains_extend(l1 + l2 + l3 + l4 + l5 + l6 + l7 + l8, l9, l3);
    // the public query at an index
    lemma_contains_suffix(l1 + l2 + l3 + l4 + l5, l6);
    lemma_contains_extend(l1 + l2 + l3 + l4 + l5 + l6, l7, l6);
    lemma_contains_extend(l1 + l2 + l3 + l4 + l5 + l6 + l7, l8, l6);
    lemma_contains_extend(l1 + l2 + l3 + l4 + l5 + l6 + l7 + l8, l9, l6);
}

/// A domain is accepted exactly when its lookup gives at least one IPv6
/// address; a lookup that gives only IPv4 addresses (or none) is refused
/// with the message that IPv4 is not acceptable, and a failed lookup is
/// refused with its own error.
pub proof fn law_ipv4_only_domains_are_refused(addrs: Seq<bool>, err: Seq<char>)
    ensures
        (forall|i: int| 0 <= i < addrs.len() ==> !addrs[i])
            ==> ipv6_verdict_spec(Ok(addrs)) == Err::<(), Seq<char>>(no_ipv6_message()),
        (exists|i: int| 0 <= i < addrs.len() && addrs[i]) ==> ipv6_verdict_spec(Ok(addrs)) == Ok::<(), Seq<char>>(()),
        ipv6_verdict_spec(Err(err)) == Err::<(), Seq<char>>(err),
{
    if exists|i: int| 0 <= i < addrs.len() && addrs[i] {
        let i = choose|i: int| 0 <= i < addrs.len() && addrs[i];
        assert(addrs.contains(true));
    }
}

/// The other ABI types: an address becomes the address type of generated
/// code, dynamic bytes a byte vector, a boolean `bool` and a string
/// `String`; arrays, fixed-size byte strings and tuples are not expressible
/// and are refused.
pub proof fn law_other_abi_types(t: AbiType)
    ensures
        t == AbiType::Address ==> rust_type_spec(t) == Ok::<Seq<char>, Seq<char>>(address_type()),
        t == AbiType::Bytes ==> rust_type_spec(t) == Ok::<Seq<char>, Seq<char>>("Vec<u8>"@),
        t == AbiType::Bool ==> rust_type_spec(t) == Ok::<Seq<char>, Seq<char>>("bool"@),
        t == AbiType::String ==> rust_type_spec(t) == Ok::<Seq<char>, Seq<char>>("String"@),
        (t is Array || t is FixedArray || t is FixedBytes || t is Tuple)
            ==> rust_type_spec(t) == Err::<Seq<char>, Seq<char>>(unimplemented_type()),
{
}

} // verus!
