//! The source text of generated canisters: which storage a snapshot gets,
//! how each argument and result of the data source is written, which
//! setup arguments a canister takes, and which manifests stop generation.

use vstd::prelude::*;
use crate::text::{views, join, join_spec, push_char, push_decimal, decimal, text_eq, replace_all, replace_str};
use crate::method_identifier::{is_ws, is_ws_char};
use crate::abi::{u256_type, address_type};
use crate::common::OutsideCallType;
use crate::abi::{find_last_char, find_last_char_exec, ContractMethodIdentifier, ContractMethodView, parse_signature_spec, first_params_open, signature_reads};
use crate::utils::{convert_camel_to_snake, snake_case_of};
use crate::snapshot_indexer_evm::SnapshotIndexerEVMComponentManifest;
use crate::snapshot::SnapshotStorage;
use crate::snapshot_indexer_icp::SnapshotIndexerICPComponentManifest;
use crate::algorithm_indexer::{AlgorithmIndexerComponentManifest, AlgorithmIndexerOutput, AlgorithmInputType, AlgorithmOutputType};

verus! {

/// How a character stands in a Rust string literal.
pub open spec fn rust_escape(c: char) -> Seq<char> {
    if c == '\\' {
        "\\\\"@
    } else if c == '"' {
        "\\\""@
    } else if c == '\n' {
        "\\n"@
    } else if c == '\r' {
        "\\r"@
    } else if c == '\t' {
        "\\t"@
    } else {
        seq![c]
    }
}

/// The characters of `s`, each as it stands in a Rust string literal.
pub open spec fn rust_escaped(s: Seq<char>) -> Seq<char>
    decreases s.len(),
{
    if s.len() == 0 {
        Seq::empty()
    } else {
        rust_escaped(s.drop_last()) + rust_escape(s.last())
    }
}

/// The Rust string literal that holds `s`.
pub open spec fn rust_str_literal(s: Seq<char>) -> Seq<char> {
    "\""@ + rust_escaped(s) + "\""@
}

/// The Rust string literal that holds `s`.
pub fn rust_string_literal(s: &str) -> (res: String)
    ensures
        res@ == rust_str_literal(s@),
{
    let n = s.unicode_len();
    let mut res = String::from_str("\"");
    let mut i: usize = 0;
    assert(s@.take(0) =~= Seq::<char>::empty());
    while i < n
        invariant
            n == s@.len(),
            i <= n,
            res@ == "\""@ + rust_escaped(s@.take(i as int)),
        decreases n - i,
    {
        let c = s.get_char(i);
        assert(s@.take(i + 1).drop_last() =~= s@.take(i as int));
        if c == '\\' {
            res.append("\\\\");
        } else if c == '"' {
            res.append("\\\"");
        } else if c == '\n' {
            res.append("\\n");
        } else if c == '\r' {
            res.append("\\r");
        } else if c == '\t' {
            res.append("\\t");
        } else {
            push_char(&mut res, c);
        }
        assert(res@ =~= "\""@ + rust_escaped(s@.take(i + 1)));
        i = i + 1;
    }
    assert(s@.take(n as int) =~= s@);
    res.append("\"");
    res
}

/// A method argument as a manifest writes it: a text, a number (its value
/// where it is a non-negative integer that fits in a `u64`), or anything
/// else.
#[derive(Clone, Debug, PartialEq)]
pub enum YamlArg {
    Str(String),
    Num(Option<u64>),
    Other,
}

/// The view of a manifest argument: its text, its number, or neither.
pub enum YamlArgView {
    Str(Seq<char>),
    Num(Option<u64>),
    Other,
}

impl View for YamlArg {
    type V = YamlArgView;

    open spec fn view(&self) -> YamlArgView {
        match self {
            YamlArg::Str(s) => YamlArgView::Str(s@),
            YamlArg::Num(n) => YamlArgView::Num(*n),
            YamlArg::Other => YamlArgView::Other,
        }
    }
}

/// What a YAML value of a manifest is as a method argument.
pub uninterp spec fn yaml_arg_of(v: serde_yaml::Value) -> YamlArgView;

/// Tells the variants of a `serde_yaml::Value` apart: a string keeps its
/// text, a number is read with `serde_yaml::Number::as_u64`. Claimed: the
/// result is the named view of the value; both steps read the value alone.
#[verifier::external_body]
pub(crate) fn yaml_arg(v: &serde_yaml::Value) -> (res: YamlArg)
    ensures
        res@ == yaml_arg_of(*v),
{
    match v {
        serde_yaml::Value::String(s) => YamlArg::Str(s.clone()),
        serde_yaml::Value::Number(n) => YamlArg::Num(n.as_u64()),
        _ => YamlArg::Other,
    }
}

/// The Rust expression that passes an argument of type `ty` with the value
/// the manifest gives; empty where the value does not suit the type.
pub open spec fn request_arg_value_spec(ty: Seq<char>, v: YamlArgView) -> Seq<char> {
    if ty == u256_type() {
        match v {
            YamlArgView::Str(s) => "ic_web3_rs::types::U256::from_dec_str("@ + rust_str_literal(s) + ").unwrap()"@,
            YamlArgView::Num(Some(n)) => decimal(n as nat) + "u64.into()"@,
            _ => Seq::empty(),
        }
    } else if ty == address_type() {
        match v {
            YamlArgView::Str(s) => "ic_web3_rs::types::Address::from_str("@ + rust_str_literal(s) + ").unwrap()"@,
            _ => Seq::empty(),
        }
    } else {
        match v {
            YamlArgView::Str(s) => rust_str_literal(s) + ","@,
            YamlArgView::Num(Some(n)) => decimal(n as nat) + "u64 as "@ + ty,
            _ => Seq::empty(),
        }
    }
}

/// The Rust type under which an argument of type `ty` is declared: texts
/// stand for 256-bit integers and addresses.
pub open spec fn request_arg_type_spec(ty: Seq<char>) -> Seq<char> {
    if ty == u256_type() || ty == address_type() { "String"@ } else { ty }
}

fn request_arg_value(ty: &str, v: &YamlArg) -> (res: String)
    ensures
        res@ == request_arg_value_spec(ty@, v@),
{
    let mut res = String::new();
    if text_eq(ty, "ic_web3_rs::types::U256") {
        match v {
            YamlArg::Str(s) => {
                res.append("ic_web3_rs::types::U256::from_dec_str(");
                let lit = rust_string_literal(s.as_str());
                res.append(lit.as_str());
                res.append(").unwrap()");
            },
            YamlArg::Num(Some(n)) => {
                push_decimal(&mut res, *n as u128);
                res.append("u64.into()");
            },
            _ => {},
        }
    } else if text_eq(ty, "ic_web3_rs::types::Address") {
        match v {
            YamlArg::Str(s) => {
                res.append("ic_web3_rs::types::Address::from_str(");
                let lit = rust_string_literal(s.as_str());
                res.append(lit.as_str());
                res.append(").unwrap()");
            },
            _ => {},
        }
    } else {
        match v {
            YamlArg::Str(s) => {
                let lit = rust_string_literal(s.as_str());
                res.append(lit.as_str());
                res.append(",");
            },
            YamlArg::Num(Some(n)) => {
                push_decimal(&mut res, *n as u128);
                res.append("u64 as ");
                res.append(ty);
            },
            _ => {},
        }
    }
    assert(res@ =~= request_arg_value_spec(ty@, v@));
    res
}

fn request_arg_type(ty: &str) -> (res: String)
    ensures
        res@ == request_arg_type_spec(ty@),
{
    if text_eq(ty, "ic_web3_rs::types::U256") || text_eq(ty, "ic_web3_rs::types::Address") {
        String::from_str("String")
    } else {
        String::from_str(ty)
    }
}

/// The (type, value) pairs of a call's arguments, as views.
pub open spec fn arg_views(args: Seq<(String, YamlArg)>) -> Seq<(Seq<char>, YamlArgView)> {
    args.map_values(|a: (String, YamlArg)| (a.0@, a.1@))
}

/// The value expressions of a call's arguments.
pub open spec fn request_values_spec(args: Seq<(Seq<char>, YamlArgView)>) -> Seq<Seq<char>> {
    args.map_values(|a: (Seq<char>, YamlArgView)| request_arg_value_spec(a.0, a.1))
}

/// The declared types of a call's arguments.
pub open spec fn request_types_spec(args: Seq<(Seq<char>, YamlArgView)>) -> Seq<Seq<char>> {
    args.map_values(|a: (Seq<char>, YamlArgView)| request_arg_type_spec(a.0))
}

/// The argument expressions and argument types of a call to the data
/// source, one of each for every (type, value) pair.
pub fn generate_request_arg_idents(args: &Vec<(String, YamlArg)>) -> (res: (Vec<String>, Vec<String>))
    requires
        forall|i: int| 0 <= i < args@.len() ==> arg_type_ok(#[trigger] args@[i].0@),
    ensures
        views(res.0@) == request_values_spec(arg_views(args@)),
        views(res.1@) == request_types_spec(arg_views(args@)),
{
    let mut values: Vec<String> = Vec::new();
    let mut types: Vec<String> = Vec::new();
    let mut i: usize = 0;
    while i < args.len()
        invariant
            i <= args@.len(),
            views(values@) =~= request_values_spec(arg_views(args@)).take(i as int),
            views(types@) =~= request_types_spec(arg_views(args@)).take(i as int),
        decreases args@.len() - i,
    {
        let v = request_arg_value(args[i].0.as_str(), &args[i].1);
        let t = request_arg_type(args[i].0.as_str());
        let ghost vb = views(values@);
        let ghost tb = views(types@);
        let ghost vv = v@;
        let ghost tv = t@;
        values.push(v);
        types.push(t);
        assert(views(values@) =~= vb.push(vv));
        assert(views(types@) =~= tb.push(tv));
        i = i + 1;
    }
    (values, types)
}

/// `.i` after a result where it is element `i` of a tuple.
pub open spec fn tuple_index_spec(idx: Option<usize>) -> Seq<char> {
    match idx {
        Some(i) => "."@ + decimal(i as nat),
        None => Seq::empty(),
    }
}

/// The type a result whose type path reads `path` (without white space) is
/// stored under, and the expression that turns the call's result (or its
/// element `idx`) into it: 256-bit integers are stored as decimal texts,
/// addresses as hexadecimal texts.
pub open spec fn stored_type_spec(path: Seq<char>, idx: Option<usize>) -> (Seq<char>, Seq<char>) {
    if path == u256_type() {
        ("String"@, "res"@ + tuple_index_spec(idx) + ".to_string()"@)
    } else if path == address_type() {
        ("String"@, "hex::encode(res"@ + tuple_index_spec(idx) + ")"@)
    } else {
        (path, "res"@ + tuple_index_spec(idx))
    }
}

/// What `syn::parse_str::<syn::Type>` makes of a type text: the token text
/// of the type where it is a path type, `None` for any other type, or the
/// text of the parse error.
pub uninterp spec fn syn_type_parse(s: Seq<char>) -> Result<Option<Seq<char>>, Seq<char>>;

/// Parses a Rust type with `syn::parse_str::<syn::Type>` and, where it is a
/// `syn::Type::Path`, prints it back with `quote::ToTokens`. Claimed: the
/// result is the named parse of the text, the error turned into its text;
/// parsing and printing read the text alone.
#[verifier::external_body]
fn parse_rust_type(s: &str) -> (res: Result<Option<String>, String>)
    ensures
        match res {
            Ok(Some(t)) => syn_type_parse(s@) == Ok::<Option<Seq<char>>, Seq<char>>(Some(t@)),
            Ok(None) => syn_type_parse(s@) == Ok::<Option<Seq<char>>, Seq<char>>(None),
            Err(e) => syn_type_parse(s@) == Err::<Option<Seq<char>>, Seq<char>>(e@),
        },
{
    match syn::parse_str::<syn::Type>(s) {
        Ok(syn::Type::Path(p)) => Ok(Some(quote::ToTokens::to_token_stream(&p).to_string())),
        Ok(_) => Ok(None),
        Err(e) => Err(e.to_string()),
    }
}

/// `s` without its white space (`String::retain` on `!char::is_whitespace`).
pub open spec fn without_whitespace(s: Seq<char>) -> Seq<char>
    decreases s.len(),
{
    if s.len() == 0 {
        Seq::empty()
    } else if is_ws(s.last()) {
        without_whitespace(s.drop_last())
    } else {
        without_whitespace(s.drop_last()).push(s.last())
    }
}

pub fn remove_whitespace(s: &str) -> (res: String)
    ensures
        res@ == without_whitespace(s@),
{
    let n = s.unicode_len();
    let mut res = String::new();
    let mut i: usize = 0;
    while i < n
        invariant
            n == s@.len(),
            i <= n,
            res@ == without_whitespace(s@.take(i as int)),
        decreases n - i,
    {
        let c = s.get_char(i);
        assert(s@.take(i + 1).drop_last() =~= s@.take(i as int));
        if !is_ws_char(c) {
            push_char(&mut res, c);
        }
        i = i + 1;
    }
    assert(s@.take(n as int) =~= s@);
    res
}

/// Whether `s` is an identifier in ASCII: a letter or `_`, then letters,
/// digits and `_`. `proc_macro2::Ident::new` (and `format_ident!`) accept
/// these; identifiers with other characters are left out here.
pub open spec fn ascii_ident(s: Seq<char>) -> bool {
    &&& s.len() > 0
    &&& (('a' <= s[0] && s[0] <= 'z') || ('A' <= s[0] && s[0] <= 'Z') || s[0] == '_')
    &&& forall|i: int| 0 <= i < s.len() ==> ident_char(#[trigger] s[i])
}

pub open spec fn ident_char(c: char) -> bool {
    ('a' <= c && c <= 'z') || ('A' <= c && c <= 'Z') || ('0' <= c && c <= '9') || c == '_'
}

/// Whether `s` is an ASCII identifier.
pub fn ascii_ident_exec(s: &str) -> (r: bool)
    ensures
        r == ascii_ident(s@),
{
    let n = s.unicode_len();
    if n == 0 {
        return false;
    }
    let c0 = s.get_char(0);
    if !(('a' <= c0 && c0 <= 'z') || ('A' <= c0 && c0 <= 'Z') || c0 == '_') {
        return false;
    }
    let mut i: usize = 0;
    while i < n
        invariant
            n == s@.len(),
            i <= n,
            forall|k: int| 0 <= k < i ==> ident_char(#[trigger] s@[k]),
        decreases n - i,
    {
        let c = s.get_char(i);
        if !(('a' <= c && c <= 'z') || ('A' <= c && c <= 'Z') || ('0' <= c && c <= '9') || c == '_') {
            assert(!ident_char(s@[i as int]));
            return false;
        }
        i = i + 1;
    }
    true
}

/// How a result of Rust type `ty` is stored: its type and its expression;
/// the parse error of a text that is no type, and `Unsupported type` for a
/// type that is not a path.
pub open spec fn primitive_type_spec(ty: Seq<char>, idx: Option<usize>) -> Result<(Seq<char>, Seq<char>), Seq<char>> {
    match syn_type_parse(ty) {
        Err(e) => Err(e),
        Ok(None) => Err("Unsupported type"@),
        Ok(Some(t)) => Ok(stored_type_spec(without_whitespace(t), idx)),
    }
}

/// Whether storing a result of type `ty` names its type by an identifier
/// where it has to (`format_ident!` panics on other texts).
pub open spec fn primitive_type_ok(ty: Seq<char>) -> bool {
    syn_type_parse(ty) matches Ok(Some(t)) ==> {
        let p = without_whitespace(t);
        p == u256_type() || p == address_type() || ascii_ident(p)
    }
}

pub open spec fn pair_result(r: Result<(String, String), String>) -> Result<(Seq<char>, Seq<char>), Seq<char>> {
    match r {
        Ok(p) => Ok((p.0@, p.1@)),
        Err(e) => Err(e@),
    }
}

/// How a result of Rust type `ty` is stored: its type and the expression
/// that reads it from the call's result (or its element `idx`). A type
/// that is not a path is refused with `Unsupported type`.
pub fn match_primitive_type(ty: &str, idx: Option<usize>) -> (res: Result<(String, String), String>)
    requires
        primitive_type_ok(ty@),
    ensures
        pair_result(res) == primitive_type_spec(ty@, idx),
{
    let path = match parse_rust_type(ty) {
        Err(e) => { return Err(e); },
        Ok(None) => { return Err(String::from_str("Unsupported type")); },
        Ok(Some(t)) => remove_whitespace(t.as_str()),
    };
    let mut index = String::new();
    match idx {
        Some(i) => {
            index.append(".");
            push_decimal(&mut index, i as u128);
        },
        None => {},
    }
    assert(index@ =~= tuple_index_spec(idx));
    let mut value = String::new();
    if text_eq(path.as_str(), "ic_web3_rs::types::U256") {
        value.append("res");
        value.append(index.as_str());
        value.append(".to_string()");
        assert(value@ =~= stored_type_spec(path@, idx).1);
        Ok((String::from_str("String"), value))
    } else if text_eq(path.as_str(), "ic_web3_rs::types::Address") {
        value.append("hex::encode(res");
        value.append(index.as_str());
        value.append(")");
        assert(value@ =~= stored_type_spec(path@, idx).1);
        Ok((String::from_str("String"), value))
    } else {
        value.append("res");
        value.append(index.as_str());
        assert(value@ =~= stored_type_spec(path@, idx).1);
        Ok((path, value))
    }
}

/// Whether storing a result of type `ty` would panic, tested before.
pub fn primitive_type_ok_exec(ty: &str) -> (r: bool)
    ensures
        r == primitive_type_ok(ty@),
{
    match parse_rust_type(ty) {
        Ok(Some(t)) => {
            let p = remove_whitespace(t.as_str());
            text_eq(p.as_str(), "ic_web3_rs::types::U256") || text_eq(p.as_str(), "ic_web3_rs::types::Address")
                || ascii_ident_exec(p.as_str())
        },
        _ => true,
    }
}

/// How a result of Rust type `ty` is stored, or `None` where its type is a
/// path that is not an identifier.
pub fn try_match_primitive_type(ty: &str, idx: Option<usize>) -> (res: Option<Result<(String, String), String>>)
    ensures
        res is Some <==> primitive_type_ok(ty@),
        res matches Some(r) ==> pair_result(r) == primitive_type_spec(ty@, idx),
{
    if primitive_type_ok_exec(ty) { Some(match_primitive_type(ty, idx)) } else { None }
}

/// The state and setup argument an outside call needs.
pub open spec fn outside_call_fields_of(t: OutsideCallType) -> Seq<char> {
    match t {
        OutsideCallType::Evm => "define_web3_ctx!();\ndefine_transform_for_web3!();\nmanage_single_state!(\"target_addr\", String, false);\n"@,
        OutsideCallType::Chainsight => "manage_single_state!(\"target_canister\", String, false);\n"@,
    }
}

pub open spec fn outside_call_arg_of(t: OutsideCallType) -> Seq<char> {
    match t {
        OutsideCallType::Evm => "target_addr: String, web3_ctx_param: chainsight_cdk::web3::Web3CtxParam"@,
        OutsideCallType::Chainsight => "target_canister: String"@,
    }
}

/// The state declarations of the outside calls, in order.
pub open spec fn outside_call_fields(ts: Seq<OutsideCallType>) -> Seq<char>
    decreases ts.len(),
{
    if ts.len() == 0 {
        Seq::empty()
    } else {
        outside_call_fields(ts.drop_last()) + outside_call_fields_of(ts.last())
    }
}

/// The state of each outside call, then the setup function that takes
/// each call's target.
pub open spec fn outside_call_idents_spec(ts: Seq<OutsideCallType>) -> Seq<char> {
    outside_call_fields(ts) + "setup_func!({ "@
        + join_spec(ts.map_values(|t: OutsideCallType| outside_call_arg_of(t)), ", "@) + " });\n"@
}

fn outside_call_arg(t: OutsideCallType) -> (res: String)
    ensures
        res@ == outside_call_arg_of(t),
{
    match t {
        OutsideCallType::Evm => String::from_str("target_addr: String, web3_ctx_param: chainsight_cdk::web3::Web3CtxParam"),
        OutsideCallType::Chainsight => String::from_str("target_canister: String"),
    }
}

/// The state and setup function of a canister's outside calls.
pub fn generate_outside_call_idents(types: &Vec<OutsideCallType>) -> (res: String)
    ensures
        res@ == outside_call_idents_spec(types@),
{
    let mut fields = String::new();
    let mut args: Vec<String> = Vec::new();
    let mut i: usize = 0;
    assert(types@.take(0) =~= Seq::<OutsideCallType>::empty());
    while i < types.len()
        invariant
            i <= types@.len(),
            fields@ == outside_call_fields(types@.take(i as int)),
            views(args@) =~= types@.take(i as int).map_values(|t: OutsideCallType| outside_call_arg_of(t)),
        decreases types@.len() - i,
    {
        let t = types[i];
        assert(types@.take(i + 1).drop_last() =~= types@.take(i as int));
        match t {
            OutsideCallType::Evm => {
                fields.append("define_web3_ctx!();\ndefine_transform_for_web3!();\nmanage_single_state!(\"target_addr\", String, false);\n");
            },
            OutsideCallType::Chainsight => {
                fields.append("manage_single_state!(\"target_canister\", String, false);\n");
            },
        }
        let a = outside_call_arg(t);
        let ghost before = views(args@);
        let ghost av = a@;
        args.push(a);
        assert(views(args@) =~= before.push(av));
        i = i + 1;
    }
    assert(types@.take(i as int) =~= types@);
    let joined = join(&args, ", ");
    let mut res = fields;
    res.append("setup_func!({ ");
    res.append(joined.as_str());
    res.append(" });\n");
    res
}

/// The queries and proxy entry points of a snapshot stored with
/// timestamps that give only the values, of type `ty`.
pub open spec fn queries_without_timestamp_spec(ty: Seq<char>) -> Seq<char> {
    "fn _get_last_snapshot_value() -> "@ + ty + " {\n    get_last_snapshot().value\n}\n\n"@
    + "fn _get_top_snapshot_values(n: u64) -> Vec<"@ + ty + "> {\n    get_top_snapshots(n).iter().map(|s| s.value.clone()).collect()\n}\n\n"@
    + "fn _get_snapshot_value(idx: u64) -> "@ + ty + " {\n    get_snapshot(idx).value\n}\n\n"@
    + "#[ic_cdk::query]\n#[candid::candid_method(query)]\npub fn get_last_snapshot_value() -> "@ + ty + " {\n    _get_last_snapshot_value()\n}\n\n"@
    + "#[ic_cdk::query]\n#[candid::candid_method(query)]\npub fn get_top_snapshot_values(n: u64) -> Vec<"@ + ty + "> {\n    _get_top_snapshot_values(n)\n}\n\n"@
    + "#[ic_cdk::query]\n#[candid::candid_method(query)]\npub fn get_snapshot_value(idx: u64) -> "@ + ty + " {\n    _get_snapshot_value(idx)\n}\n\n"@
    + "#[ic_cdk::update]\n#[candid::candid_method(update)]\npub fn proxy_get_last_snapshot_value(input: std::vec::Vec<u8>) -> std::vec::Vec<u8> {\n    use chainsight_cdk::rpc::Receiver;\n    chainsight_cdk::rpc::ReceiverProviderWithoutArgs::<"@ + ty + ">::new(\n        proxy(),\n        _get_last_snapshot_value,\n    )\n    .reply(input)\n}\n\n"@
    + "#[ic_cdk::update]\n#[candid::candid_method(update)]\npub fn proxy_get_top_snapshot_values(input: std::vec::Vec<u8>) -> std::vec::Vec<u8> {\n    use chainsight_cdk::rpc::Receiver;\n    chainsight_cdk::rpc::ReceiverProvider::<u64, Vec<"@ + ty + ">>::new(\n        proxy(),\n        _get_top_snapshot_values,\n    )\n    .reply(input)\n}\n\n"@
    + "#[ic_cdk::update]\n#[candid::candid_method(update)]\npub fn proxy_get_snapshot_value(input: std::vec::Vec<u8>) -> std::vec::Vec<u8> {\n    use chainsight_cdk::rpc::Receiver;\n    chainsight_cdk::rpc::ReceiverProvider::<u64, "@ + ty + ">::new(\n        proxy(),\n        _get_snapshot_value,\n    )\n    .reply(input)\n}\n"@
}

/// The queries of a snapshot's values without their timestamps, for values
/// of type `return_type`.
pub fn generate_queries_without_timestamp(return_type: &str) -> (res: String)
    ensures
        res@ == queries_without_timestamp_spec(return_type@),
{
    let ty = return_type;
    let mut res = String::from_str("fn _get_last_snapshot_value() -> ");
    res.append(ty);
    res.append(" {\n    get_last_snapshot().value\n}\n\n");
    res.append("fn _get_top_snapshot_values(n: u64) -> Vec<");
    res.append(ty);
    res.append("> {\n    get_top_snapshots(n).iter().map(|s| s.value.clone()).collect()\n}\n\n");
    res.append("fn _get_snapshot_value(idx: u64) -> ");
    res.append(ty);
    res.append(" {\n    get_snapshot(idx).value\n}\n\n");
    res.append("#[ic_cdk::query]\n#[candid::candid_method(query)]\npub fn get_last_snapshot_value() -> ");
    res.append(ty);
    res.append(" {\n    _get_last_snapshot_value()\n}\n\n");
    res.append("#[ic_cdk::query]\n#[candid::candid_method(query)]\npub fn get_top_snapshot_values(n: u64) -> Vec<");
    res.append(ty);
    res.append("> {\n    _get_top_snapshot_values(n)\n}\n\n");
    res.append("#[ic_cdk::query]\n#[candid::candid_method(query)]\npub fn get_snapshot_value(idx: u64) -> ");
    res.append(ty);
    res.append(" {\n    _get_snapshot_value(idx)\n}\n\n");
    res.append("#[ic_cdk::update]\n#[candid::candid_method(update)]\npub fn proxy_get_last_snapshot_value(input: std::vec::Vec<u8>) -> std::vec::Vec<u8> {\n    use chainsight_cdk::rpc::Receiver;\n    chainsight_cdk::rpc::ReceiverProviderWithoutArgs::<");
    res.append(ty);
    res.append(">::new(\n        proxy(),\n        _get_last_snapshot_value,\n    )\n    .reply(input)\n}\n\n");
    res.append("#[ic_cdk::update]\n#[candid::candid_method(update)]\npub fn proxy_get_top_snapshot_values(input: std::vec::Vec<u8>) -> std::vec::Vec<u8> {\n    use chainsight_cdk::rpc::Receiver;\n    chainsight_cdk::rpc::ReceiverProvider::<u64, Vec<");
    res.append(ty);
    res.append(">>::new(\n        proxy(),\n        _get_top_snapshot_values,\n    )\n    .reply(input)\n}\n\n");
    res.append("#[ic_cdk::update]\n#[candid::candid_method(update)]\npub fn proxy_get_snapshot_value(input: std::vec::Vec<u8>) -> std::vec::Vec<u8> {\n    use chainsight_cdk::rpc::Receiver;\n    chainsight_cdk::rpc::ReceiverProvider::<u64, ");
    res.append(ty);
    res.append(">::new(\n        proxy(),\n        _get_snapshot_value,\n    )\n    .reply(input)\n}\n");
    assert(res@ =~= queries_without_timestamp_spec(return_type@));
    res
}

/// The items, each followed by `sep`.
pub open spec fn terminated(items: Seq<Seq<char>>, sep: Seq<char>) -> Seq<char>
    decreases items.len(),
{
    if items.len() == 0 {
        Seq::empty()
    } else {
        terminated(items.drop_last(), sep) + items.last() + sep
    }
}

fn terminated_exec(items: &Vec<String>, sep: &str) -> (res: String)
    ensures
        res@ == terminated(views(items@), sep@),
{
    let mut res = String::new();
    let mut i: usize = 0;
    while i < items.len()
        invariant
            i <= items@.len(),
            res@ == terminated(views(items@).take(i as int), sep@),
        decreases items@.len() - i,
    {
        assert(views(items@).take(i + 1).drop_last() =~= views(items@).take(i as int));
        res.append(items[i].as_str());
        res.append(sep);
        i = i + 1;
    }
    assert(views(items@).take(i as int) =~= views(items@));
    res
}

/// `s` with every trailing `.json` removed (`str::trim_end_matches`).
pub open spec fn strip_json(s: Seq<char>) -> Seq<char>
    decreases s.len(),
{
    if s.len() >= 5 && s.skip(s.len() - 5) == ".json"@ {
        strip_json(s.take(s.len() - 5))
    } else {
        s
    }
}

fn strip_json_exec(s: &str) -> (res: String)
    ensures
        res@ == strip_json(s@),
{
    let mut end = s.unicode_len();
    assert(s@.take(end as int) =~= s@);
    loop
        invariant
            end <= s@.len(),
            strip_json(s@.take(end as int)) == strip_json(s@),
        ensures
            end <= s@.len(),
            strip_json(s@.take(end as int)) == strip_json(s@),
            strip_json(s@.take(end as int)) == s@.take(end as int),
        decreases end,
    {
        if end < 5 {
            break;
        }
        let tail = s.substring_char(end - 5, end);
        assert(tail@ =~= s@.take(end as int).skip(end - 5));
        if !text_eq(tail, ".json") {
            break;
        }
        assert(s@.take(end as int).take(end - 5) =~= s@.take(end - 5));
        end = end - 5;
    }
    let r = String::from_str(s.substring_char(0, end));
    assert(r@ =~= s@.take(end as int));
    r
}

/// The derive line of a stored snapshot.
pub open spec fn snapshot_derive() -> Seq<char> {
    "#[derive(Debug, Clone, candid::CandidType, candid::Deserialize, serde::Serialize, StableMemoryStorable)]\n#[stable_mem_storable_opts(max_size = 10000, is_fixed_size = false)]\n"@
}

/// How the results of a contract method are stored, each element of a
/// result tuple in turn up to the first error: the types and the
/// expressions of the first `n` elements.
pub open spec fn response_elements(rs: Seq<Seq<char>>, n: int) -> Result<(Seq<Seq<char>>, Seq<Seq<char>>), Seq<char>>
    decreases n,
{
    if n <= 0 {
        Ok((Seq::empty(), Seq::empty()))
    } else {
        match response_elements(rs, n - 1) {
            Err(e) => Err(e),
            Ok(done) => match primitive_type_spec(rs[n - 1], Some((n - 1) as usize)) {
                Err(e) => Err(e),
                Ok(x) => Ok((done.0.push(x.0), done.1.push(x.1))),
            },
        }
    }
}

/// Whether storing the first `n` elements reaches only types that are named
/// by identifiers where they have to be.
pub open spec fn response_elements_ok(rs: Seq<Seq<char>>, n: int) -> bool
    decreases n,
{
    if n <= 0 {
        true
    } else {
        response_elements_ok(rs, n - 1)
            && (response_elements(rs, n - 1) is Err || primitive_type_ok(rs[n - 1]))
    }
}

/// How a contract's results are stored: the one result as it is, or each
/// element of the result tuple.
pub open spec fn response_idents_spec(rs: Seq<Seq<char>>) -> Result<(Seq<Seq<char>>, Seq<Seq<char>>), Seq<char>> {
    if rs.len() == 1 {
        match primitive_type_spec(rs[0], None) {
            Err(e) => Err(e),
            Ok(x) => Ok((seq![x.0], seq![x.1])),
        }
    } else {
        response_elements(rs, rs.len() as int)
    }
}

pub open spec fn responses_ok(rs: Seq<Seq<char>>) -> bool {
    if rs.len() == 1 { primitive_type_ok(rs[0]) } else { response_elements_ok(rs, rs.len() as int) }
}

/// The definition of a contract snapshot: a value with a timestamp, or the
/// stored results alone.
pub open spec fn contract_snapshot_def(types: Seq<Seq<char>>, with_timestamp: bool) -> Seq<char> {
    if with_timestamp {
        snapshot_derive() + "pub struct Snapshot {\n    pub value: SnapshotValue,\n    pub timestamp: u64,\n}\ntype SnapshotValue = ("@
            + join_spec(types, ", "@) + ");\n"@
    } else {
        snapshot_derive() + "pub struct Snapshot("@
            + join_spec(types.map_values(|t: Seq<char>| "pub "@ + t), ", "@) + ");\n"@
    }
}

/// The code of a snapshot indexer of a contract method: its snapshot type,
/// its queries, the contract binding and the task that calls the method
/// and stores what it returns.
pub open spec fn contract_code_text(
    label: Seq<char>,
    method: Seq<char>,
    interface: Seq<char>,
    request_values: Seq<Seq<char>>,
    types: Seq<Seq<char>>,
    values: Seq<Seq<char>>,
    with_timestamp: bool,
) -> Seq<char> {
    contract_snapshot_def(types, with_timestamp) + "\n"@
        + (if with_timestamp { queries_without_timestamp_spec("SnapshotValue"@) } else { Seq::<char>::empty() })
        + "\nic_solidity_bindgen::contract_abi!("@ + rust_str_literal("./__interfaces/"@ + interface)
        + ");\nsnapshot_web3_source!("@ + rust_str_literal(method) + ");\nasync fn execute_task() {\n"@
        + (if with_timestamp { "    let current_ts_sec = ic_cdk::api::time() / 1000000;\n"@ } else { Seq::<char>::empty() })
        + "    let res = "@ + strip_json(interface)
        + "::new(\n        Address::from_str(&get_target_addr()).unwrap(),\n        &web3_ctx().unwrap()\n    )."@
        + method + "("@ + terminated(request_values, ", "@) + "None).await.unwrap();\n"@
        + (if with_timestamp {
            "    let datum = Snapshot {\n        value: ("@ + join_spec(values, ", "@) + "),\n        timestamp: current_ts_sec,\n    };\n"@
        } else {
            "    let datum = Snapshot("@ + join_spec(values, ", "@) + ");\n"@
        })
        + "    add_snapshot(datum.clone());\n"@
        + (if with_timestamp {
            "    ic_cdk::println!(\"ts={}, snapshot={:?}\", datum.timestamp, datum.value);\n"@
        } else {
            "    ic_cdk::println!(\"snapshot={:?}\", datum);\n"@
        })
        + "}\n\ndid_export!("@ + rust_str_literal(label) + ");\n"@
}

/// The (parameter type, argument) pairs of a call.
pub open spec fn paired_args(params: Seq<Seq<char>>, args: Seq<YamlArgView>) -> Seq<(Seq<char>, YamlArgView)> {
    Seq::new(params.len(), |i: int| (params[i], args[i]))
}

/// The views of a manifest's arguments.
pub open spec fn yaml_arg_views(args: Seq<serde_yaml::Value>) -> Seq<YamlArgView> {
    args.map_values(|v: serde_yaml::Value| yaml_arg_of(v))
}

/// What generating the code of a contract snapshot indexer gives: the
/// error of reading the method signature, of a missing interface file, of
/// a count of arguments that differs from the count of parameters, of a
/// method without results, or of a result type that cannot be stored; else
/// the code.
pub open spec fn contract_code_spec(m: SnapshotIndexerEVMComponentManifest, with_timestamp: bool) -> Result<Seq<char>, Seq<char>> {
    let method = m.datasource.method;
    match parse_signature_spec(method.identifier@) {
        Err(e) => Err(e),
        Ok(sig) => match method.interface {
            None => Err("datasource.method.interface is required for contract"@),
            Some(iface) => {
                let args = yaml_arg_views(method.args@);
                if sig.params.len() != args.len() {
                    Err("The number of params and args must be the same"@)
                } else if sig.return_value.len() == 0 {
                    Err("The number of response types must be greater than 0"@)
                } else {
                    match response_idents_spec(sig.return_value) {
                        Err(e) => Err(e),
                        Ok(r) => Ok(contract_code_text(
                            m.metadata.label@,
                            snake_case_of(sig.identifier),
                            iface@,
                            request_values_spec(paired_args(sig.params, args)),
                            r.0,
                            r.1,
                            with_timestamp,
                        )),
                    }
                }
            },
        },
    }
}

/// Whether an argument of type `ty` is declared under an identifier where
/// it has to be (`format_ident!` panics on other texts).
pub open spec fn arg_type_ok(ty: Seq<char>) -> bool {
    ty == u256_type() || ty == address_type() || ascii_ident(ty)
}

pub fn arg_type_ok_exec(ty: &str) -> (r: bool)
    ensures
        r == arg_type_ok(ty@),
{
    text_eq(ty, "ic_web3_rs::types::U256") || text_eq(ty, "ic_web3_rs::types::Address") || ascii_ident_exec(ty)
}

/// Whether generating a contract snapshot indexer names everything it
/// names by identifiers: the method, the contract binding, the argument
/// types and the stored result types it reaches.
pub open spec fn contract_code_ok(m: SnapshotIndexerEVMComponentManifest) -> bool {
    let method = m.datasource.method;
    match parse_signature_spec(method.identifier@) {
        Err(_) => true,
        Ok(sig) => {
            &&& ascii_ident(snake_case_of(sig.identifier))
            &&& match method.interface {
                None => true,
                Some(iface) => {
                    &&& ascii_ident(strip_json(iface@))
                    &&& (sig.params.len() == method.args@.len() ==> {
                        &&& forall|k: int| 0 <= k < sig.params.len() ==> arg_type_ok(#[trigger] sig.params[k])
                        &&& (sig.return_value.len() > 0 ==> responses_ok(sig.return_value))
                    })
                },
            }
        },
    }
}

pub open spec fn idents_result(r: Result<(Vec<String>, Vec<String>), String>) -> Result<(Seq<Seq<char>>, Seq<Seq<char>>), Seq<char>> {
    match r {
        Ok(p) => Ok((views(p.0@), views(p.1@))),
        Err(e) => Err(e@),
    }
}

proof fn lemma_response_elements_err_prefix(rs: Seq<Seq<char>>, i: int)
    requires
        0 <= i <= rs.len(),
        response_elements(rs, i) is Err,
        response_elements_ok(rs, i),
    ensures
        response_elements(rs, rs.len() as int) == response_elements(rs, i),
        response_elements_ok(rs, rs.len() as int),
    decreases rs.len() - i,
{
    if i < rs.len() {
        lemma_response_elements_err_prefix(rs, i + 1);
    }
}

proof fn lemma_response_elements_ok_prefix(rs: Seq<Seq<char>>, n: int, i: int)
    requires
        0 <= i <= n,
        response_elements_ok(rs, n),
    ensures
        response_elements_ok(rs, i),
    decreases n - i,
{
    if i < n {
        lemma_response_elements_ok_prefix(rs, n - 1, i);
    }
}

/// How the results are stored; `None`, where `check` is set, where a result
/// type reached cannot be named.
fn response_idents(rs: &Vec<String>, check: bool) -> (res: Option<Result<(Vec<String>, Vec<String>), String>>)
    requires
        !check ==> responses_ok(views(rs@)),
    ensures
        res is None <==> !responses_ok(views(rs@)),
        res matches Some(r) ==> idents_result(r) == response_idents_spec(views(rs@)),
{
    let ghost rv = views(rs@);
    let mut types: Vec<String> = Vec::new();
    let mut values: Vec<String> = Vec::new();
    if rs.len() == 1 {
        assert(rv[0] == rs@[0]@);
        if !primitive_type_ok_exec(rs[0].as_str()) {
            return None;
        }
        match match_primitive_type(rs[0].as_str(), None) {
            Err(e) => { return Some(Err(e)); },
            Ok((t, v)) => {
                let ghost tv = t@;
                let ghost vv = v@;
                types.push(t);
                values.push(v);
                assert(views(types@) =~= seq![tv]);
                assert(views(values@) =~= seq![vv]);
                return Some(Ok((types, values)));
            },
        }
    }
    assert(views(types@) =~= Seq::<Seq<char>>::empty());
    assert(views(values@) =~= Seq::<Seq<char>>::empty());
    let mut i: usize = 0;
    while i < rs.len()
        invariant
            rv == views(rs@),
            rs@.len() != 1,
            i <= rs@.len(),
            !check ==> responses_ok(rv),
            response_elements_ok(rv, i as int),
            response_elements(rv, i as int) == Ok::<(Seq<Seq<char>>, Seq<Seq<char>>), Seq<char>>((views(types@), views(values@))),
        decreases rs@.len() - i,
    {
        assert(rv[i as int] == rs@[i as int]@);
        if !primitive_type_ok_exec(rs[i].as_str()) {
            proof {
                if responses_ok(rv) {
                    lemma_response_elements_ok_prefix(rv, rv.len() as int, i + 1);
                }
            }
            return None;
        }
        match match_primitive_type(rs[i].as_str(), Some(i)) {
            Err(e) => {
                proof {
                    assert(response_elements_ok(rv, i + 1));
                    lemma_response_elements_err_prefix(rv, i + 1);
                }
                return Some(Err(e));
            },
            Ok((t, v)) => {
                let ghost tb = views(types@);
                let ghost vb = views(values@);
                let ghost tv = t@;
                let ghost vv = v@;
                types.push(t);
                values.push(v);
                assert(views(types@) =~= tb.push(tv));
                assert(views(values@) =~= vb.push(vv));
            },
        }
        i = i + 1;
    }
    Some(Ok((types, values)))
}

fn pub_fields(types: &Vec<String>) -> (res: Vec<String>)
    ensures
        views(res@) == views(types@).map_values(|t: Seq<char>| "pub "@ + t),
{
    let mut res: Vec<String> = Vec::new();
    let mut i: usize = 0;
    while i < types.len()
        invariant
            i <= types@.len(),
            views(res@) =~= views(types@).map_values(|t: Seq<char>| "pub "@ + t).take(i as int),
        decreases types@.len() - i,
    {
        let mut f = String::from_str("pub ");
        f.append(types[i].as_str());
        let ghost before = views(res@);
        let ghost fv = f@;
        res.push(f);
        assert(views(res@) =~= before.push(fv));
        i = i + 1;
    }
    res
}

fn contract_code(
    label: &str,
    method: &str,
    interface: &str,
    request_values: &Vec<String>,
    types: &Vec<String>,
    values: &Vec<String>,
    with_timestamp: bool,
) -> (res: String)
    ensures
        res@ == contract_code_text(label@, method@, interface@, views(request_values@), views(types@), views(values@), with_timestamp),
{
    let joined_values = join(values, ", ");
    let mut res = String::from_str("#[derive(Debug, Clone, candid::CandidType, candid::Deserialize, serde::Serialize, StableMemoryStorable)]\n#[stable_mem_storable_opts(max_size = 10000, is_fixed_size = false)]\n");
    if with_timestamp {
        res.append("pub struct Snapshot {\n    pub value: SnapshotValue,\n    pub timestamp: u64,\n}\ntype SnapshotValue = (");
        let joined = join(types, ", ");
        res.append(joined.as_str());
        res.append(");\n");
    } else {
        res.append("pub struct Snapshot(");
        let fields = pub_fields(types);
        let joined = join(&fields, ", ");
        res.append(joined.as_str());
        res.append(");\n");
    }
    assert(res@ =~= contract_snapshot_def(views(types@), with_timestamp));
    res.append("\n");
    if with_timestamp {
        let q = generate_queries_without_timestamp("SnapshotValue");
        res.append(q.as_str());
    }
    res.append("\nic_solidity_bindgen::contract_abi!(");
    let mut path = String::from_str("./__interfaces/");
    path.append(interface);
    let lit = rust_string_literal(path.as_str());
    res.append(lit.as_str());
    res.append(");\nsnapshot_web3_source!(");
    let lit = rust_string_literal(method);
    res.append(lit.as_str());
    res.append(");\nasync fn execute_task() {\n");
    if with_timestamp {
        res.append("    let current_ts_sec = ic_cdk::api::time() / 1000000;\n");
    }
    res.append("    let res = ");
    let st = strip_json_exec(interface);
    res.append(st.as_str());
    res.append("::new(\n        Address::from_str(&get_target_addr()).unwrap(),\n        &web3_ctx().unwrap()\n    ).");
    res.append(method);
    res.append("(");
    let args = terminated_exec(request_values, ", ");
    res.append(args.as_str());
    res.append("None).await.unwrap();\n");
    if with_timestamp {
        res.append("    let datum = Snapshot {\n        value: (");
        res.append(joined_values.as_str());
        res.append("),\n        timestamp: current_ts_sec,\n    };\n");
    } else {
        res.append("    let datum = Snapshot(");
        res.append(joined_values.as_str());
        res.append(");\n");
    }
    res.append("    add_snapshot(datum.clone());\n");
    if with_timestamp {
        res.append("    ic_cdk::println!(\"ts={}, snapshot={:?}\", datum.timestamp, datum.value);\n");
    } else {
        res.append("    ic_cdk::println!(\"snapshot={:?}\", datum);\n");
    }
    res.append("}\n\ndid_export!(");
    let lit = rust_string_literal(label);
    res.append(lit.as_str());
    res.append(");\n");
    assert(res@ =~= contract_code_text(label@, method@, interface@, views(request_values@), views(types@), views(values@), with_timestamp));
    res
}

pub open spec fn string_result(r: Result<String, String>) -> Result<Seq<char>, Seq<char>> {
    match r {
        Ok(s) => Ok(s@),
        Err(e) => Err(e@),
    }
}

fn contract_codes(m: &SnapshotIndexerEVMComponentManifest, storage: SnapshotStorage, check: bool) -> (res: Option<Result<String, String>>)
    requires
        first_params_open(m.datasource.method.identifier@, 0) is Some,
        signature_reads(m.datasource.method.identifier@),
        !check ==> contract_code_ok(*m),
    ensures
        res is None <==> !contract_code_ok(*m),
        res matches Some(r) ==> string_result(r) == contract_code_spec(*m, storage.with_timestamp),
{
    let method = &m.datasource.method;
    let sig = match ContractMethodIdentifier::parse_from_str(method.identifier.as_str()) {
        Ok(sig) => sig,
        Err(e) => { return Some(Err(e)); },
    };
    assert(parse_signature_spec(method.identifier@) == Ok::<ContractMethodView, Seq<char>>(sig@));
    let method_name = convert_camel_to_snake(sig.identifier.as_str());
    if !ascii_ident_exec(method_name.as_str()) {
        return None;
    }
    let iface = match &method.interface {
        Some(i) => i,
        None => { return Some(Err(String::from_str("datasource.method.interface is required for contract"))); },
    };
    let st = strip_json_exec(iface.as_str());
    if !ascii_ident_exec(st.as_str()) {
        return None;
    }
    if sig.params.len() != method.args.len() {
        return Some(Err(String::from_str("The number of params and args must be the same")));
    }
    let mut pairs: Vec<(String, YamlArg)> = Vec::new();
    let mut i: usize = 0;
    while i < sig.params.len()
        invariant
            sig.params@.len() == method.args@.len(),
            i <= sig.params@.len(),
            arg_views(pairs@) =~= paired_args(views(sig.params@), yaml_arg_views(method.args@)).take(i as int),
            forall|k: int| 0 <= k < i ==> arg_type_ok(#[trigger] views(sig.params@)[k]),
            forall|k: int| 0 <= k < pairs@.len() ==> arg_type_ok(#[trigger] pairs@[k].0@),
            pairs@.len() == i,
            *method == m.datasource.method,
            method.interface == Some(*iface),
            parse_signature_spec(method.identifier@) == Ok::<ContractMethodView, Seq<char>>(sig@),
        decreases sig.params@.len() - i,
    {
        assert(views(sig.params@)[i as int] == sig.params@[i as int]@);
        if !arg_type_ok_exec(sig.params[i].as_str()) {
            assert(!arg_type_ok(views(sig.params@)[i as int]));
            assert(sig@.params[i as int] == views(sig.params@)[i as int]);
            assert(sig@.params.len() == method.args@.len());
            assert(!(forall|k: int| 0 <= k < sig@.params.len() ==> arg_type_ok(#[trigger] sig@.params[k])));
            assert(method.interface == Some(*iface));
            assert(!contract_code_ok(*m));
            return None;
        }
        let a = yaml_arg(&method.args[i]);
        let p = (sig.params[i].clone(), a);
        let ghost before = arg_views(pairs@);
        let ghost pv = (p.0@, p.1@);
        pairs.push(p);
        assert(arg_views(pairs@) =~= before.push(pv));
        i = i + 1;
    }
    assert(arg_views(pairs@) =~= paired_args(views(sig.params@), yaml_arg_views(method.args@)));
    if sig.return_value.len() == 0 {
        return Some(Err(String::from_str("The number of response types must be greater than 0")));
    }
    let (request_values, _) = generate_request_arg_idents(&pairs);
    let (types, values) = match response_idents(&sig.return_value, check) {
        None => { return None; },
        Some(Err(e)) => { return Some(Err(e)); },
        Some(Ok(r)) => r,
    };
    let code = contract_code(m.metadata.label.as_str(), method_name.as_str(), iface.as_str(), &request_values, &types, &values, storage.with_timestamp);
    Some(Ok(code))
}

/// The code of a snapshot indexer that reads a contract method, stored with
/// timestamps or not. The method signature must hold a name followed by a
/// bracketed list whose types ethabi reads, and what the generator names
/// must be identifiers.
pub fn custom_codes_for_contract(m: &SnapshotIndexerEVMComponentManifest, storage: SnapshotStorage) -> (res: Result<String, String>)
    requires
        first_params_open(m.datasource.method.identifier@, 0) is Some,
        signature_reads(m.datasource.method.identifier@),
        contract_code_ok(*m),
    ensures
        string_result(res) == contract_code_spec(*m, storage.with_timestamp),
{
    match contract_codes(m, storage, false) {
        Some(r) => r,
        None => { assert(false); Err(String::new()) },
    }
}

/// The code of a snapshot indexer that reads a contract method, or `None`
/// where its signature holds no name followed by a bracketed list, or a
/// type that ethabi cannot read, or where the generator would name
/// something by a text that is no identifier.
pub fn try_custom_codes_for_contract(m: &SnapshotIndexerEVMComponentManifest, storage: SnapshotStorage) -> (res: Option<Result<String, String>>)
    ensures
        res is None <==> first_params_open(m.datasource.method.identifier@, 0) is None
            || !signature_reads(m.datasource.method.identifier@)
            || !contract_code_ok(*m),
        res matches Some(r) ==> string_result(r) == contract_code_spec(*m, storage.with_timestamp),
{
    match ContractMethodIdentifier::try_parse_from_str(m.datasource.method.identifier.as_str()) {
        None => None,
        Some(_) => contract_codes(m, storage, true),
    }
}

/// The result type of a canister method: one type, a tuple of types, or a
/// record of named fields.
#[derive(Clone, Debug)]
pub enum CanisterMethodValueType {
    Scalar(String),
    Tuple(Vec<String>),
    Struct(Vec<(String, String)>),
}

/// A canister method as the generator reads it: its name, the Rust types of
/// its parameters and its result type.
#[derive(Clone, Debug)]
pub struct CanisterMethodSignature {
    pub identifier: String,
    pub params: Vec<String>,
    pub return_value: CanisterMethodValueType,
}

/// The field lines of the record a struct result is stored in.
pub open spec fn struct_fields_spec(fields: Seq<(String, String)>) -> Seq<Seq<char>> {
    fields.map_values(|f: (String, String)| "    pub "@ + f.0@ + ": "@ + f.1@)
}

/// The declaration of `SnapshotValue`, and the record it names for a
/// struct result.
pub open spec fn canister_value_defs(r: CanisterMethodValueType) -> (Seq<char>, Seq<char>) {
    match r {
        CanisterMethodValueType::Scalar(t) => ("type SnapshotValue = "@ + t@ + ";\n"@, Seq::empty()),
        CanisterMethodValueType::Tuple(ts) => ("type SnapshotValue = ("@ + join_spec(views(ts@), ", "@) + ");\n"@, Seq::empty()),
        CanisterMethodValueType::Struct(fs) => (
            "type SnapshotValue = CustomResponseStruct;\n"@,
            "#[derive(Clone, Debug, candid::CandidType, serde::Serialize, candid::Deserialize)]\npub struct CustomResponseStruct {\n"@
                + join_spec(struct_fields_spec(fs@), ",\n"@) + "\n}\n"@,
        ),
    }
}

/// The code of a snapshot indexer of a canister method: its snapshot type,
/// its queries, and the task that calls the method through the proxy and
/// stores what it returns.
pub open spec fn canister_code_text(
    label: Seq<char>,
    method: Seq<char>,
    request_values: Seq<Seq<char>>,
    request_types: Seq<Seq<char>>,
    r: CanisterMethodValueType,
    with_timestamp: bool,
) -> Seq<char> {
    let defs = canister_value_defs(r);
    let proxy_method = rust_str_literal("proxy_"@ + method);
    (if with_timestamp {
        "#[derive(Clone, Debug, candid::CandidType, candid::Deserialize, serde::Serialize, StableMemoryStorable)]\n#[stable_mem_storable_opts(max_size = 10000, is_fixed_size = false)]\npub struct Snapshot {\n    pub value: SnapshotValue,\n    pub timestamp: u64,\n}\n"@
    } else {
        snapshot_derive() + "pub struct Snapshot(pub SnapshotValue);\n\n"@
    })
        + defs.0 + "\n"@
        + (if with_timestamp { queries_without_timestamp_spec("SnapshotValue"@) } else { Seq::<char>::empty() })
        + "\n"@ + defs.1
        + "\nsnapshot_icp_source!("@ + proxy_method + ");\n\ntype CallCanisterArgs = ("@
        + join_spec(request_types, ", "@) + ");\ntype CallCanisterResponse = SnapshotValue;\nasync fn execute_task() {\n"@
        + (if with_timestamp { "    let current_ts_sec = ic_cdk::api::time() / 1000000;\n"@ } else { Seq::<char>::empty() })
        + "    let target_canister = candid::Principal::from_text(get_target_canister()).unwrap();\n    let call_result = CallProvider::new(proxy())\n        .call(\n            Message::new::<CallCanisterArgs>(\n                ("@
        + join_spec(request_values, ", "@) + "),\n                target_canister.clone(),\n                "@ + proxy_method
        + "\n            ).unwrap()\n        ).await;\n    if let Err(err) = call_result {\n        ic_cdk::println!(\"error: {:?}\", err);\n        return;\n    }\n    let res = call_result.unwrap().reply::<CallCanisterResponse>();\n    if let Err(err) = res {\n        ic_cdk::println!(\"error: {:?}\", err);\n        return;\n    }\n"@
        + (if with_timestamp {
            "    let datum = Snapshot {\n        value: res.unwrap().clone(),\n        timestamp: current_ts_sec,\n    };\n"@
        } else {
            "    let datum = Snapshot((res.unwrap().clone()));\n"@
        })
        + "    add_snapshot(datum.clone());\n"@
        + (if with_timestamp {
            "    ic_cdk::println!(\"ts={}, value={:?}\", datum.timestamp, datum.value);\n"@
        } else {
            "    ic_cdk::println!(\"snapshot={:?}\", datum);\n"@
        })
        + "}\n\ndid_export!("@ + rust_str_literal(label) + ");\n"@
}

/// The code of a canister snapshot indexer for method `sig`: each argument
/// of the manifest is passed with the type of the parameter at its place.
pub open spec fn canister_code_spec(m: SnapshotIndexerICPComponentManifest, sig: CanisterMethodSignature, with_timestamp: bool) -> Seq<char> {
    let args = yaml_arg_views(m.datasource.method.args@);
    let pairs = paired_args(views(sig.params@).take(args.len() as int), args);
    canister_code_text(
        m.metadata.label@,
        sig.identifier@,
        request_values_spec(pairs),
        request_types_spec(pairs),
        sig.return_value,
        with_timestamp,
    )
}

fn canister_value_definitions(r: &CanisterMethodValueType) -> (res: (String, String))
    ensures
        res.0@ == canister_value_defs(*r).0,
        res.1@ == canister_value_defs(*r).1,
{
    match r {
        CanisterMethodValueType::Scalar(t) => {
            let mut d = String::from_str("type SnapshotValue = ");
            d.append(t.as_str());
            d.append(";\n");
            (d, String::new())
        },
        CanisterMethodValueType::Tuple(ts) => {
            let mut d = String::from_str("type SnapshotValue = (");
            let j = join(ts, ", ");
            d.append(j.as_str());
            d.append(");\n");
            (d, String::new())
        },
        CanisterMethodValueType::Struct(fs) => {
            let mut lines: Vec<String> = Vec::new();
            let mut i: usize = 0;
            while i < fs.len()
                invariant
                    i <= fs@.len(),
                    views(lines@) =~= struct_fields_spec(fs@).take(i as int),
                decreases fs@.len() - i,
            {
                let mut l = String::from_str("    pub ");
                l.append(fs[i].0.as_str());
                l.append(": ");
                l.append(fs[i].1.as_str());
                let ghost before = views(lines@);
                let ghost lv = l@;
                lines.push(l);
                assert(views(lines@) =~= before.push(lv));
                i = i + 1;
            }
            assert(views(lines@) =~= struct_fields_spec(fs@));
            let j = join(&lines, ",\n");
            let mut body = String::from_str("#[derive(Clone, Debug, candid::CandidType, serde::Serialize, candid::Deserialize)]\npub struct CustomResponseStruct {\n");
            body.append(j.as_str());
            body.append("\n}\n");
            assert(body@ =~= canister_value_defs(*r).1);
            (String::from_str("type SnapshotValue = CustomResponseStruct;\n"), body)
        },
    }
}

/// Whether the generator names the argument types it reaches and the result
/// types by identifiers (`format_ident!` panics on other texts).
pub open spec fn canister_code_ok(m: SnapshotIndexerICPComponentManifest, sig: CanisterMethodSignature) -> bool {
    &&& forall|k: int| 0 <= k < m.datasource.method.args@.len() ==> arg_type_ok(#[trigger] sig.params@[k]@)
    &&& match sig.return_value {
        CanisterMethodValueType::Scalar(t) => ascii_ident(t@),
        CanisterMethodValueType::Tuple(ts) => forall|k: int| 0 <= k < ts@.len() ==> ascii_ident(#[trigger] ts@[k]@),
        CanisterMethodValueType::Struct(fs) => forall|k: int| 0 <= k < fs@.len() ==>
            ascii_ident(#[trigger] fs@[k].0@) && ascii_ident(fs@[k].1@),
    }
}

/// The code of a snapshot indexer that reads canister method `sig`, stored
/// with timestamps or not. Each argument of the manifest needs a parameter
/// at its place, and the types the generator names must be identifiers.
pub fn custom_codes_for_canister(m: &SnapshotIndexerICPComponentManifest, storage: SnapshotStorage, sig: &CanisterMethodSignature) -> (res: String)
    requires
        m.datasource.method.args@.len() <= sig.params@.len(),
        canister_code_ok(*m, *sig),
    ensures
        res@ == canister_code_spec(*m, *sig, storage.with_timestamp),
{
    let with_timestamp = storage.with_timestamp;
    let args = &m.datasource.method.args;
    let mut pairs: Vec<(String, YamlArg)> = Vec::new();
    let mut i: usize = 0;
    while i < args.len()
        invariant
            args@.len() <= sig.params@.len(),
            i <= args@.len(),
            arg_views(pairs@) =~= paired_args(views(sig.params@).take(args@.len() as int), yaml_arg_views(args@)).take(i as int),
            forall|k: int| 0 <= k < args@.len() ==> arg_type_ok(#[trigger] sig.params@[k]@),
            pairs@.len() == i,
            forall|k: int| 0 <= k < pairs@.len() ==> pairs@[k].0@ == sig.params@[k]@,
        decreases args@.len() - i,
    {
        let a = yaml_arg(&args[i]);
        let p = (sig.params[i].clone(), a);
        let ghost before = arg_views(pairs@);
        let ghost pv = (p.0@, p.1@);
        pairs.push(p);
        assert(arg_views(pairs@) =~= before.push(pv));
        i = i + 1;
    }
    assert(arg_views(pairs@) =~= paired_args(views(sig.params@).take(args@.len() as int), yaml_arg_views(args@)));
    assert forall|k: int| 0 <= k < pairs@.len() implies arg_type_ok(#[trigger] pairs@[k].0@) by {
        assert(pairs@[k].0@ == sig.params@[k]@);
    }
    let (values, types) = generate_request_arg_idents(&pairs);
    let (value_def, struct_def) = canister_value_definitions(&sig.return_value);
    let mut proxy_method = String::from_str("proxy_");
    proxy_method.append(sig.identifier.as_str());
    let proxy_lit = rust_string_literal(proxy_method.as_str());
    let mut res = if with_timestamp {
        String::from_str("#[derive(Clone, Debug, candid::CandidType, candid::Deserialize, serde::Serialize, StableMemoryStorable)]\n#[stable_mem_storable_opts(max_size = 10000, is_fixed_size = false)]\npub struct Snapshot {\n    pub value: SnapshotValue,\n    pub timestamp: u64,\n}\n")
    } else {
        let mut h = String::from_str("#[derive(Debug, Clone, candid::CandidType, candid::Deserialize, serde::Serialize, StableMemoryStorable)]\n#[stable_mem_storable_opts(max_size = 10000, is_fixed_size = false)]\n");
        h.append("pub struct Snapshot(pub SnapshotValue);\n\n");
        h
    };
    res.append(value_def.as_str());
    res.append("\n");
    if with_timestamp {
        let q = generate_queries_without_timestamp("SnapshotValue");
        res.append(q.as_str());
    }
    res.append("\n");
    res.append(struct_def.as_str());
    res.append("\nsnapshot_icp_source!(");
    res.append(proxy_lit.as_str());
    res.append(");\n\ntype CallCanisterArgs = (");
    let jt = join(&types, ", ");
    res.append(jt.as_str());
    res.append(");\ntype CallCanisterResponse = SnapshotValue;\nasync fn execute_task() {\n");
    if with_timestamp {
        res.append("    let current_ts_sec = ic_cdk::api::time() / 1000000;\n");
    }
    res.append("    let target_canister = candid::Principal::from_text(get_target_canister()).unwrap();\n    let call_result = CallProvider::new(proxy())\n        .call(\n            Message::new::<CallCanisterArgs>(\n                (");
    let jv = join(&values, ", ");
    res.append(jv.as_str());
    res.append("),\n                target_canister.clone(),\n                ");
    res.append(proxy_lit.as_str());
    res.append("\n            ).unwrap()\n        ).await;\n    if let Err(err) = call_result {\n        ic_cdk::println!(\"error: {:?}\", err);\n        return;\n    }\n    let res = call_result.unwrap().reply::<CallCanisterResponse>();\n    if let Err(err) = res {\n        ic_cdk::println!(\"error: {:?}\", err);\n        return;\n    }\n");
    if with_timestamp {
        res.append("    let datum = Snapshot {\n        value: res.unwrap().clone(),\n        timestamp: current_ts_sec,\n    };\n");
    } else {
        res.append("    let datum = Snapshot((res.unwrap().clone()));\n");
    }
    res.append("    add_snapshot(datum.clone());\n");
    if with_timestamp {
        res.append("    ic_cdk::println!(\"ts={}, value={:?}\", datum.timestamp, datum.value);\n");
    } else {
        res.append("    ic_cdk::println!(\"snapshot={:?}\", datum);\n");
    }
    res.append("}\n\ndid_export!(");
    let lit = rust_string_literal(m.metadata.label.as_str());
    res.append(lit.as_str());
    res.append(");\n");
    assert(res@ =~= canister_code_spec(*m, *sig, with_timestamp));
    res
}

/// A type path as its tokens print: the segments joined by ` :: `.
pub open spec fn path_tokens(path: Seq<char>) -> Seq<char> {
    replace_all(path, "::"@, " :: "@)
}

/// Whether `path` is a `::`-separated path of ASCII identifiers, as
/// `proc_macro2::Ident::new` accepts each segment.
pub open spec fn ident_path(path: Seq<char>) -> bool
    decreases path.len(),
{
    match find_last_char(path, ':') {
        None => ascii_ident(path),
        Some(k) => {
            if k < 1 || k >= path.len() || path[k - 1] != ':' {
                false
            } else {
                ascii_ident(path.skip(k + 1)) && ident_path(path.take(k - 1))
            }
        },
    }
}

/// Whether `path` is a path of ASCII identifiers.
pub fn ident_path_exec(path: &str) -> (r: bool)
    ensures
        r == ident_path(path@),
    decreases path@.len(),
{
    let n = path.unicode_len();
    proof { crate::abi::lemma_find_last_char_bounds(path@, ':'); }
    match find_last_char_exec(path, ':') {
        None => ascii_ident_exec(path),
        Some(k) => {
            if k < 1 || k >= n || path.get_char(k - 1) != ':' {
                false
            } else {
                let last = path.substring_char(k + 1, n);
                assert(last@ =~= path@.skip(k + 1));
                let prefix = path.substring_char(0, k - 1);
                assert(prefix@ =~= path@.take(k - 1));
                ascii_ident_exec(last) && ident_path_exec(prefix)
            }
        },
    }
}

/// The tokens of a type path written in a manifest: each segment becomes an
/// identifier, and the segments are joined by ` :: `. Each segment must be
/// an identifier.
pub fn convert_struct_path_to_token_stream(val: &str) -> (res: String)
    requires
        ident_path(val@),
    ensures
        res@ == path_tokens(val@),
{
    proof { reveal_strlit("::"); }
    replace_str(val, "::", " :: ")
}

/// The field lines of a generated struct: `pub name: Type` for each field,
/// the type written as its path's tokens.
pub open spec fn path_fields_spec(fields: Seq<(String, String)>) -> Seq<Seq<char>> {
    fields.map_values(|f: (String, String)| "    pub "@ + f.0@ + ": "@ + path_tokens(f.1@))
}

pub open spec fn struct_field_lines(fields: Seq<(String, String)>) -> Seq<char> {
    if fields.len() == 0 {
        Seq::empty()
    } else {
        join_spec(path_fields_spec(fields), ",\n"@) + "\n"@
    }
}

/// Whether the fields of a generated struct have distinct identifiers as
/// names and paths of identifiers as types, as the map they come from does.
pub open spec fn fields_ok(fields: Seq<(String, String)>) -> bool {
    &&& forall|k: int| 0 <= k < fields.len() ==> ascii_ident(#[trigger] fields[k].0@) && ident_path(fields[k].1@)
    &&& forall|i: int, j: int| 0 <= i < j < fields.len() ==> #[trigger] fields[i].0@ != #[trigger] fields[j].0@
}

/// Whether an algorithm indexer's template names its structs and fields by
/// identifiers, with distinct field names.
pub open spec fn algorithm_app_ok(m: AlgorithmIndexerComponentManifest) -> bool {
    &&& ascii_ident(m.datasource.input.name@)
    &&& fields_ok(m.datasource.input.fields@)
    &&& forall|k: int| 0 <= k < m.output@.len() ==> ascii_ident(#[trigger] m.output@[k].name@) && fields_ok(m.output@[k].fields@)
}

/// The store an output of an algorithm indexer is kept in.
pub open spec fn output_store(t: AlgorithmOutputType) -> Seq<char> {
    match t {
        AlgorithmOutputType::KeyValue => "KeyValueStore"@,
        AlgorithmOutputType::KeyValues => "KeyValuesStore"@,
    }
}

/// The struct of an output, kept in its store under memory id `idx`.
pub open spec fn output_struct_spec(o: AlgorithmIndexerOutput, idx: nat) -> Seq<char> {
    "#[derive(Clone, Debug, Default, candid::CandidType, serde::Deserialize, serde::Serialize, chainsight_cdk_macros::Persist, chainsight_cdk_macros::"@
        + output_store(o.output_type) + ")]\n#[memory_id("@ + decimal(idx) + ")]\npub struct "@ + o.name@ + " {\n"@
        + struct_field_lines(o.fields@) + "}\n\n"@
}

/// The line of the template that stores an output.
pub open spec fn output_template_spec(o: AlgorithmIndexerOutput) -> Seq<char> {
    match o.output_type {
        AlgorithmOutputType::KeyValue => "    "@ + o.name@ + "::default().put(dummy_id);\n"@,
        AlgorithmOutputType::KeyValues => "    "@ + o.name@ + "::put(dummy_id, vec!["@ + o.name@ + "::default()])\n"@,
    }
}

/// The structs and template lines of the outputs, and how many outputs of
/// each store came so far: each store numbers its outputs from 1.
pub open spec fn outputs_code(outs: Seq<AlgorithmIndexerOutput>) -> (Seq<char>, Seq<char>, nat, nat)
    decreases outs.len(),
{
    if outs.len() == 0 {
        (Seq::empty(), Seq::empty(), 0, 0)
    } else {
        let prev = outputs_code(outs.drop_last());
        let o = outs.last();
        match o.output_type {
            AlgorithmOutputType::KeyValue => (
                prev.0 + output_struct_spec(o, prev.2 + 1),
                prev.1 + output_template_spec(o),
                prev.2 + 1,
                prev.3,
            ),
            AlgorithmOutputType::KeyValues => (
                prev.0 + output_struct_spec(o, prev.3 + 1),
                prev.1 + output_template_spec(o),
                prev.2,
                prev.3 + 1,
            ),
        }
    }
}

/// The type of what an algorithm indexer reads, for input struct `ev`.
pub open spec fn input_type_spec(t: AlgorithmInputType, ev: Seq<char>) -> Seq<char> {
    match t {
        AlgorithmInputType::EventIndexer => "HashMap<u64, Vec<"@ + ev + ">>"@,
        AlgorithmInputType::KeyValue => "HashMap<String, "@ + ev + ">"@,
        AlgorithmInputType::KeyValues => "HashMap<String, Vec<"@ + ev + ">>"@,
    }
}

/// The logic module of an algorithm indexer: its input struct, a struct per
/// output with its store, and a `persist` template that stores each.
pub open spec fn algorithm_app_spec(m: AlgorithmIndexerComponentManifest) -> Seq<char> {
    let ev = m.datasource.input.name@;
    let outs = outputs_code(m.output@);
    "use std::collections::HashMap;\nuse chainsight_cdk::storage::Data;\n\n#[derive(Clone, Debug, Default, candid::CandidType, serde::Serialize, serde::Deserialize)]\npub struct "@
        + ev + " {\n"@ + struct_field_lines(m.datasource.input.fields@) + "}\n\n"@
        + outs.0
        + "pub fn persist(elem: "@ + input_type_spec(m.datasource.source_type, ev)
        + ") {\n    let dummy_id: u64 = 0;\n\n    todo!(\"Write your logic: Store in storage with the type you define\");\n"@
        + outs.1 + "}\n"@
}

fn struct_field_text(fields: &Vec<(String, String)>) -> (res: String)
    requires
        fields_ok(fields@),
    ensures
        res@ == struct_field_lines(fields@),
{
    if fields.len() == 0 {
        return String::new();
    }
    let mut lines: Vec<String> = Vec::new();
    let mut i: usize = 0;
    while i < fields.len()
        invariant
            i <= fields@.len(),
            fields_ok(fields@),
            views(lines@) =~= path_fields_spec(fields@).take(i as int),
        decreases fields@.len() - i,
    {
        let mut l = String::from_str("    pub ");
        l.append(fields[i].0.as_str());
        l.append(": ");
        assert(ident_path(fields@[i as int].1@));
        let t = convert_struct_path_to_token_stream(fields[i].1.as_str());
        l.append(t.as_str());
        let ghost before = views(lines@);
        let ghost lv = l@;
        lines.push(l);
        assert(views(lines@) =~= before.push(lv));
        i = i + 1;
    }
    assert(views(lines@) =~= path_fields_spec(fields@));
    let mut res = join(&lines, ",\n");
    res.append("\n");
    res
}

fn append_output(structs: &mut String, templates: &mut String, o: &AlgorithmIndexerOutput, idx: usize)
    requires
        fields_ok(o.fields@),
    ensures
        final(structs)@ == old(structs)@ + output_struct_spec(*o, idx as nat),
        final(templates)@ == old(templates)@ + output_template_spec(*o),
{
    let mut st = String::from_str("#[derive(Clone, Debug, Default, candid::CandidType, serde::Deserialize, serde::Serialize, chainsight_cdk_macros::Persist, chainsight_cdk_macros::");
    let mut t = String::from_str("    ");
    t.append(o.name.as_str());
    match o.output_type {
        AlgorithmOutputType::KeyValue => {
            st.append("KeyValueStore");
            t.append("::default().put(dummy_id);\n");
        },
        AlgorithmOutputType::KeyValues => {
            st.append("KeyValuesStore");
            t.append("::put(dummy_id, vec![");
            t.append(o.name.as_str());
            t.append("::default()])\n");
        },
    }
    st.append(")]\n#[memory_id(");
    push_decimal(&mut st, idx as u128);
    st.append(")]\npub struct ");
    st.append(o.name.as_str());
    st.append(" {\n");
    let f = struct_field_text(&o.fields);
    st.append(f.as_str());
    st.append("}\n\n");
    assert(st@ =~= output_struct_spec(*o, idx as nat));
    assert(t@ =~= output_template_spec(*o));
    structs.append(st.as_str());
    templates.append(t.as_str());
}

/// The logic module that a new algorithm indexer starts from.
pub fn generate_app(m: &AlgorithmIndexerComponentManifest) -> (res: String)
    requires
        algorithm_app_ok(*m),
    ensures
        res@ == algorithm_app_spec(*m),
{
    let ev = m.datasource.input.name.as_str();
    let mut res = String::from_str("use std::collections::HashMap;\nuse chainsight_cdk::storage::Data;\n\n#[derive(Clone, Debug, Default, candid::CandidType, serde::Serialize, serde::Deserialize)]\npub struct ");
    res.append(ev);
    res.append(" {\n");
    let f = struct_field_text(&m.datasource.input.fields);
    res.append(f.as_str());
    res.append("}\n\n");
    let mut structs = String::new();
    let mut templates = String::new();
    let mut kv: usize = 0;
    let mut kvs: usize = 0;
    let mut i: usize = 0;
    assert(m.output@.take(0) =~= Seq::<AlgorithmIndexerOutput>::empty());
    while i < m.output.len()
        invariant
            i <= m.output@.len(),
            kv + kvs == i,
            algorithm_app_ok(*m),
            outputs_code(m.output@.take(i as int)) == (structs@, templates@, kv as nat, kvs as nat),
        decreases m.output@.len() - i,
    {
        let o = &m.output[i];
        assert(m.output@.take(i + 1).drop_last() =~= m.output@.take(i as int));
        let idx: usize = match o.output_type {
            AlgorithmOutputType::KeyValue => { kv = kv + 1; kv },
            AlgorithmOutputType::KeyValues => { kvs = kvs + 1; kvs },
        };
        assert(ascii_ident(m.output@[i as int].name@) && fields_ok(m.output@[i as int].fields@));
        append_output(&mut structs, &mut templates, o, idx);
        proof {
            let prev = outputs_code(m.output@.take(i as int));
            let cur = outputs_code(m.output@.take(i + 1));
            assert(m.output@.take(i + 1).last() == *o);
            assert(cur.0 == prev.0 + output_struct_spec(*o, idx as nat));
            assert(cur.1 == prev.1 + output_template_spec(*o));
        }
        i = i + 1;
    }
    assert(m.output@.take(i as int) =~= m.output@);
    res.append(structs.as_str());
    res.append("pub fn persist(elem: ");
    match m.datasource.source_type {
        AlgorithmInputType::EventIndexer => {
            res.append("HashMap<u64, Vec<");
            res.append(ev);
            res.append(">>");
        },
        AlgorithmInputType::KeyValue => {
            res.append("HashMap<String, ");
            res.append(ev);
            res.append(">");
        },
        AlgorithmInputType::KeyValues => {
            res.append("HashMap<String, Vec<");
            res.append(ev);
            res.append(">>");
        },
    }
    res.append(") {\n    let dummy_id: u64 = 0;\n\n    todo!(\"Write your logic: Store in storage with the type you define\");\n");
    res.append(templates.as_str());
    res.append("}\n");
    assert(res@ =~= algorithm_app_spec(*m));
    res
}

/// The part of a contract snapshot indexer's code that does not depend on
/// its manifest: imports, the state of the EVM call, storage and timer.
pub open spec fn common_codes_for_contract_spec() -> Seq<char> {
    "use std::str::FromStr;\nuse candid::{Decode, Encode};\nuse chainsight_cdk_macros::{init_in, manage_single_state, setup_func, prepare_stable_structure, stable_memory_for_vec, StableMemoryStorable, timer_task_func, define_transform_for_web3, define_web3_ctx, chainsight_common, did_export, snapshot_web3_source};\n\nuse ic_web3_rs::types::Address;\ninit_in!();\n\nchainsight_common!(3600);\n\n"@
        + outside_call_idents_spec(seq![OutsideCallType::Evm])
        + "\nprepare_stable_structure!();\nstable_memory_for_vec!(\"snapshot\", Snapshot, 0, true);\ntimer_task_func!(\"set_task\", \"execute_task\", true);\n"@
}

/// The part of a canister snapshot indexer's code that does not depend on
/// its manifest: imports, the state of the canister call, storage and timer.
pub open spec fn common_codes_for_canister_spec() -> Seq<char> {
    "use candid::{Decode, Encode};\nuse chainsight_cdk_macros::{init_in,manage_single_state, setup_func, prepare_stable_structure, stable_memory_for_vec, StableMemoryStorable, timer_task_func, chainsight_common, did_export, snapshot_icp_source};\nuse chainsight_cdk::rpc::{CallProvider, Caller, Message};\ninit_in!();\nchainsight_common!(3600);\n\n"@
        + outside_call_idents_spec(seq![OutsideCallType::Chainsight])
        + "\nprepare_stable_structure!();\nstable_memory_for_vec!(\"snapshot\", Snapshot, 0, true);\ntimer_task_func!(\"set_task\", \"execute_task\", true);\n"@
}

/// The manifest-independent part of a contract snapshot indexer's code.
pub fn common_codes_for_contract() -> (res: String)
    ensures
        res@ == common_codes_for_contract_spec(),
{
    let mut types: Vec<OutsideCallType> = Vec::new();
    types.push(OutsideCallType::Evm);
    assert(types@ =~= seq![OutsideCallType::Evm]);
    let calls = generate_outside_call_idents(&types);
    let mut res = String::from_str("use std::str::FromStr;\nuse candid::{Decode, Encode};\nuse chainsight_cdk_macros::{init_in, manage_single_state, setup_func, prepare_stable_structure, stable_memory_for_vec, StableMemoryStorable, timer_task_func, define_transform_for_web3, define_web3_ctx, chainsight_common, did_export, snapshot_web3_source};\n\nuse ic_web3_rs::types::Address;\ninit_in!();\n\nchainsight_common!(3600);\n\n");
    res.append(calls.as_str());
    res.append("\nprepare_stable_structure!();\nstable_memory_for_vec!(\"snapshot\", Snapshot, 0, true);\ntimer_task_func!(\"set_task\", \"execute_task\", true);\n");
    res
}

/// The manifest-independent part of a canister snapshot indexer's code.
pub fn common_codes_for_canister() -> (res: String)
    ensures
        res@ == common_codes_for_canister_spec(),
{
    let mut types: Vec<OutsideCallType> = Vec::new();
    types.push(OutsideCallType::Chainsight);
    assert(types@ =~= seq![OutsideCallType::Chainsight]);
    let calls = generate_outside_call_idents(&types);
    let mut res = String::from_str("use candid::{Decode, Encode};\nuse chainsight_cdk_macros::{init_in,manage_single_state, setup_func, prepare_stable_structure, stable_memory_for_vec, StableMemoryStorable, timer_task_func, chainsight_common, did_export, snapshot_icp_source};\nuse chainsight_cdk::rpc::{CallProvider, Caller, Message};\ninit_in!();\nchainsight_common!(3600);\n\n");
    res.append(calls.as_str());
    res.append("\nprepare_stable_structure!();\nstable_memory_for_vec!(\"snapshot\", Snapshot, 0, true);\ntimer_task_func!(\"set_task\", \"execute_task\", true);\n");
    res
}

fn fields_ok_exec(fields: &Vec<(String, String)>) -> (r: bool)
    ensures
        r == fields_ok(fields@),
{
    let n = fields.len();
    let mut i: usize = 0;
    while i < n
        invariant
            n == fields@.len(),
            i <= n,
            forall|k: int| 0 <= k < i ==> ascii_ident(#[trigger] fields@[k].0@) && ident_path(fields@[k].1@),
            forall|a: int, b: int| 0 <= a < b < n && a < i ==> #[trigger] fields@[a].0@ != #[trigger] fields@[b].0@,
        decreases n - i,
    {
        if !ascii_ident_exec(fields[i].0.as_str()) || !ident_path_exec(fields[i].1.as_str()) {
            return false;
        }
        let mut j: usize = i + 1;
        while j < n
            invariant
                n == fields@.len(),
                i < n,
                i < j <= n,
                forall|b: int| i < b < j ==> fields@[i as int].0@ != #[trigger] fields@[b].0@,
            decreases n - j,
        {
            if text_eq(fields[i].0.as_str(), fields[j].0.as_str()) {
                assert(fields@[i as int].0@ == fields@[j as int].0@);
                return false;
            }
            j = j + 1;
        }
        i = i + 1;
    }
    true
}

/// The logic module that a new algorithm indexer starts from, or `None`
/// where a name or type it would declare is not an identifier, or two
/// fields of a struct share a name.
pub fn try_generate_app(m: &AlgorithmIndexerComponentManifest) -> (res: Option<String>)
    ensures
        res is Some <==> algorithm_app_ok(*m),
        res matches Some(c) ==> c@ == algorithm_app_spec(*m),
{
    if !ascii_ident_exec(m.datasource.input.name.as_str()) || !fields_ok_exec(&m.datasource.input.fields) {
        return None;
    }
    let mut i: usize = 0;
    while i < m.output.len()
        invariant
            i <= m.output@.len(),
            forall|k: int| 0 <= k < i ==> ascii_ident(#[trigger] m.output@[k].name@) && fields_ok(m.output@[k].fields@),
        decreases m.output@.len() - i,
    {
        if !ascii_ident_exec(m.output[i].name.as_str()) || !fields_ok_exec(&m.output[i].fields) {
            assert(!(ascii_ident(m.output@[i as int].name@) && fields_ok(m.output@[i as int].fields@)));
            return None;
        }
        let ghost prev = i as int;
        assert(ascii_ident(m.output@[prev].name@) && fields_ok(m.output@[prev].fields@));
        assert forall|k: int| 0 <= k < prev + 1 implies ascii_ident(#[trigger] m.output@[k].name@) && fields_ok(m.output@[k].fields@) by {
            if k < prev {
            } else {
                assert(k == prev);
            }
        }
        i = i + 1;
    }
    Some(generate_app(m))
}

} // verus!
