//! The canister code of a snapshot indexer that reads a JSON-RPC endpoint.

use vstd::prelude::*;
use crate::canister_code::{
    rust_str_literal, rust_string_literal, terminated, queries_without_timestamp_spec,
    generate_queries_without_timestamp,
};

verus! {

/// The line that passes one (name, value) pair of a request.
pub open spec fn pair_line(p: (String, String)) -> Seq<char> {
    "                ("@ + rust_str_literal(p.0@) + ".to_string(), "@ + rust_str_literal(p.1@) + ".to_string()),\n"@
}

/// The lines of the pairs, in order.
pub open spec fn pair_lines(ps: Seq<(String, String)>) -> Seq<char> {
    terminated(ps.map_values(|p: (String, String)| pair_line(p)), Seq::empty())
}

/// The code of the indexer: it takes a snapshot of the endpoint at `url`,
/// called with the given headers and queries, with its timestamp, and
/// answers queries of the values.
pub open spec fn json_rpc_code_spec(
    label: Seq<char>,
    url: Seq<char>,
    headers: Seq<(String, String)>,
    queries: Seq<(String, String)>,
) -> Seq<char> {
    "use chainsight_cdk::web2::{JsonRpcSnapshotParam, Web2JsonRpcSnapshotIndexer};\nuse chainsight_cdk_macros::{\n    chainsight_common, did_export, init_in, prepare_stable_structure, stable_memory_for_vec,\n    timer_task_func, StableMemoryStorable,\n};\nuse candid::{Decode, Encode};\n\ninit_in!();\nchainsight_common!(60);\nmod app;\nuse app::*;\n#[derive(Debug, Clone, candid::CandidType, candid::Deserialize, serde::Serialize, StableMemoryStorable)]\n#[stable_mem_storable_opts(max_size = 10000, is_fixed_size = false)]\npub struct Snapshot {\n    pub value: SnapshotValue,\n    pub timestamp: u64,\n}\nprepare_stable_structure!();\nstable_memory_for_vec!(\"snapshot\", Snapshot, 0, true);\ntimer_task_func!(\"set_task\", \"index\", true);\nasync fn index() {\n    let indexer = Web2JsonRpcSnapshotIndexer::new(\n        "@
        + rust_str_literal(url)
        + ".to_string(),\n    );\n    let res = indexer.get::<String, SnapshotValue>(\n        JsonRpcSnapshotParam {\n            headers: vec![\n"@
        + pair_lines(headers)
        + "            ].into_iter().collect(),\n            queries: vec![\n"@
        + pair_lines(queries)
        + "            ].into_iter().collect(),\n        }\n    ).await.unwrap();\n    let snapshot = Snapshot {\n        value: res,\n        timestamp: ic_cdk::api::time() / 1000000,\n    };\n    let _ = add_snapshot(snapshot.clone());\n}\n"@
        + queries_without_timestamp_spec("SnapshotValue"@)
        + "did_export!("@ + rust_str_literal(label) + ");\n"@
}

fn pair_lines_exec(ps: &Vec<(String, String)>) -> (res: String)
    ensures
        res@ == pair_lines(ps@),
{
    let mut res = String::new();
    let mut i: usize = 0;
    let ghost lines = ps@.map_values(|p: (String, String)| pair_line(p));
    while i < ps.len()
        invariant
            i <= ps@.len(),
            lines == ps@.map_values(|p: (String, String)| pair_line(p)),
            res@ == terminated(lines.take(i as int), Seq::empty()),
        decreases ps@.len() - i,
    {
        assert(lines.take(i + 1).drop_last() =~= lines.take(i as int));
        res.append("                (");
        let k = rust_string_literal(ps[i].0.as_str());
        res.append(k.as_str());
        res.append(".to_string(), ");
        let v = rust_string_literal(ps[i].1.as_str());
        res.append(v.as_str());
        res.append(".to_string()),\n");
        assert(res@ =~= terminated(lines.take(i + 1), Seq::empty()));
        i = i + 1;
    }
    assert(lines.take(i as int) =~= lines);
    res
}

/// Whether the names of the pairs are distinct, as the keys of a map are.
pub open spec fn distinct_names(ps: Seq<(String, String)>) -> bool {
    forall|i: int, j: int| 0 <= i < j < ps.len() ==> #[trigger] ps[i].0@ != #[trigger] ps[j].0@
}

/// The code of a JSON-RPC snapshot indexer labelled `label` that reads
/// `url` with the given headers and queries, each a map from names to
/// values.
pub fn generate_codes(label: &str, url: &str, headers: &Vec<(String, String)>, queries: &Vec<(String, String)>) -> (res: Result<String, String>)
    requires
        distinct_names(headers@),
        distinct_names(queries@),
    ensures
        res matches Ok(c) && c@ == json_rpc_code_spec(label@, url@, headers@, queries@),
{
    let mut res = String::from_str("use chainsight_cdk::web2::{JsonRpcSnapshotParam, Web2JsonRpcSnapshotIndexer};\nuse chainsight_cdk_macros::{\n    chainsight_common, did_export, init_in, prepare_stable_structure, stable_memory_for_vec,\n    timer_task_func, StableMemoryStorable,\n};\nuse candid::{Decode, Encode};\n\ninit_in!();\nchainsight_common!(60);\nmod app;\nuse app::*;\n#[derive(Debug, Clone, candid::CandidType, candid::Deserialize, serde::Serialize, StableMemoryStorable)]\n#[stable_mem_storable_opts(max_size = 10000, is_fixed_size = false)]\npub struct Snapshot {\n    pub value: SnapshotValue,\n    pub timestamp: u64,\n}\nprepare_stable_structure!();\nstable_memory_for_vec!(\"snapshot\", Snapshot, 0, true);\ntimer_task_func!(\"set_task\", \"index\", true);\nasync fn index() {\n    let indexer = Web2JsonRpcSnapshotIndexer::new(\n        ");
    let u = rust_string_literal(url);
    res.append(u.as_str());
    res.append(".to_string(),\n    );\n    let res = indexer.get::<String, SnapshotValue>(\n        JsonRpcSnapshotParam {\n            headers: vec![\n");
    let h = pair_lines_exec(headers);
    res.append(h.as_str());
    res.append("            ].into_iter().collect(),\n            queries: vec![\n");
    let q = pair_lines_exec(queries);
    res.append(q.as_str());
    res.append("            ].into_iter().collect(),\n        }\n    ).await.unwrap();\n    let snapshot = Snapshot {\n        value: res,\n        timestamp: ic_cdk::api::time() / 1000000,\n    };\n    let _ = add_snapshot(snapshot.clone());\n}\n");
    let qs = generate_queries_without_timestamp("SnapshotValue");
    res.append(qs.as_str());
    res.append("did_export!(");
    let l = rust_string_literal(label);
    res.append(l.as_str());
    res.append(");\n");
    assert(res@ =~= json_rpc_code_spec(label@, url@, headers@, queries@));
    Ok(res)
}

} // verus!
