//! The arguments a component's canister is set up with: canister names
//! resolved to ids, and their candid encoding.

use vstd::prelude::*;
use crate::component_ids::ComponentIdsManager;
use crate::principal::{principal_from_text, principal_text_valid};
use crate::text::views;
use crate::types::{Network, SdkEnv};

verus! {

/// What a canister name or id stands for when a component is set up: the
/// text of a principal stands for itself, a component name for the id the
/// record holds for it on the record's network.
pub open spec fn resolve_spec(s: Seq<char>, mgr: ComponentIdsManager) -> Option<Seq<char>> {
    if principal_text_valid(s) { Some(s) } else { mgr.id_on_network(s) }
}

/// The id a canister name or id stands for. It must stand for one.
pub fn resolve_name_or_id(name_or_id: &str, mgr: &ComponentIdsManager) -> (res: String)
    requires
        resolve_spec(name_or_id@, *mgr) is Some,
    ensures
        res@ == resolve_spec(name_or_id@, *mgr)->0,
{
    if principal_from_text(name_or_id).is_some() {
        String::from_str(name_or_id)
    } else {
        match mgr.get(name_or_id) {
            Some(id) => id,
            None => String::new(),
        }
    }
}

/// The message for a name that stands for no id.
pub open spec fn unresolved_message(s: Seq<char>) -> Seq<char> {
    "Failed to get canister id for "@ + s
}

/// The id a canister name or id stands for, or the error that it stands for
/// none.
pub fn try_resolve_name_or_id(name_or_id: &str, mgr: &ComponentIdsManager) -> (res: Result<String, String>)
    ensures
        match resolve_spec(name_or_id@, *mgr) {
            Some(v) => res matches Ok(r) && r@ == v,
            None => res matches Err(e) && e@ == unresolved_message(name_or_id@),
        },
{
    let known = principal_from_text(name_or_id).is_some() || mgr.get(name_or_id).is_some();
    if known {
        Ok(resolve_name_or_id(name_or_id, mgr))
    } else {
        let mut e = String::from_str("Failed to get canister id for ");
        e.append(name_or_id);
        Err(e)
    }
}

/// Whether every name in the list stands for an id.
pub open spec fn all_resolve(names: Seq<Seq<char>>, mgr: ComponentIdsManager) -> bool {
    forall|i: int| 0 <= i < names.len() ==> (#[trigger] resolve_spec(names[i], mgr)) is Some
}

/// The ids the names stand for, in order.
pub open spec fn resolve_all_spec(names: Seq<Seq<char>>, mgr: ComponentIdsManager) -> Seq<Seq<char>> {
    names.map_values(|n: Seq<char>| resolve_spec(n, mgr)->0)
}

/// The first name of the list that stands for no id, if any.
pub open spec fn first_unresolved(names: Seq<Seq<char>>, mgr: ComponentIdsManager) -> Option<Seq<char>>
    decreases names.len(),
{
    if names.len() == 0 {
        None
    } else if resolve_spec(names[0], mgr) is None {
        Some(names[0])
    } else {
        first_unresolved(names.skip(1), mgr)
    }
}

/// No name of a list is the first to stand for no id exactly when every
/// name stands for one.
pub proof fn lemma_none_unresolved_iff_all_resolve(names: Seq<Seq<char>>, mgr: ComponentIdsManager)
    ensures
        first_unresolved(names, mgr) is None <==> all_resolve(names, mgr),
    decreases names.len(),
{
    if names.len() > 0 {
        lemma_none_unresolved_iff_all_resolve(names.skip(1), mgr);
        if resolve_spec(names[0], mgr) is Some {
            assert forall|i: int| 0 <= i < names.len() && all_resolve(names.skip(1), mgr) implies (#[trigger] resolve_spec(names[i], mgr)) is Some by {
                if i > 0 {
                    assert(names.skip(1)[i - 1] == names[i]);
                }
            }
            if all_resolve(names, mgr) {
                assert forall|i: int| 0 <= i < names.skip(1).len() implies (#[trigger] resolve_spec(names.skip(1)[i], mgr)) is Some by {
                    assert(names.skip(1)[i] == names[i + 1]);
                }
            }
        }
    }
}

proof fn lemma_first_unresolved_split(names: Seq<Seq<char>>, mgr: ComponentIdsManager, i: int)
    requires
        0 <= i < names.len(),
        all_resolve(names.take(i), mgr),
        resolve_spec(names[i], mgr) is None,
    ensures
        first_unresolved(names, mgr) == Some(names[i]),
    decreases i,
{
    if i > 0 {
        assert(names.take(i)[0] == names[0]);
        assert(names.skip(1).take(i - 1) =~= names.take(i).skip(1));
        assert forall|k: int| 0 <= k < i - 1 implies (#[trigger] resolve_spec(names.skip(1).take(i - 1)[k], mgr)) is Some by {
            assert(names.skip(1).take(i - 1)[k] == names.take(i)[k + 1]);
        }
        lemma_first_unresolved_split(names.skip(1), mgr, i - 1);
    }
}

/// The ids that a list of names stand for. Each must stand for one.
pub fn resolve_all(names: &Vec<String>, mgr: &ComponentIdsManager) -> (res: Vec<String>)
    requires
        all_resolve(views(names@), *mgr),
    ensures
        views(res@) == resolve_all_spec(views(names@), *mgr),
{
    let mut res: Vec<String> = Vec::new();
    let mut i: usize = 0;
    while i < names.len()
        invariant
            i <= names@.len(),
            all_resolve(views(names@), *mgr),
            views(res@) =~= resolve_all_spec(views(names@).take(i as int), *mgr),
        decreases names@.len() - i,
    {
        let ghost before = views(res@);
        assert(views(names@)[i as int] == names@[i as int]@);
        let r = resolve_name_or_id(names[i].as_str(), mgr);
        res.push(r);
        assert(views(names@).take(i + 1) =~= views(names@).take(i as int).push(names@[i as int]@));
        assert(views(res@) =~= before.push(resolve_spec(names@[i as int]@, *mgr)->0));
        i = i + 1;
    }
    assert(views(names@).take(i as int) =~= views(names@));
    res
}

/// The ids that a list of names stand for, or the error for the first name
/// that stands for none.
pub fn try_resolve_all(names: &Vec<String>, mgr: &ComponentIdsManager) -> (res: Result<Vec<String>, String>)
    ensures
        match first_unresolved(views(names@), *mgr) {
            None => res matches Ok(v) && views(v@) == resolve_all_spec(views(names@), *mgr),
            Some(n) => res matches Err(e) && e@ == unresolved_message(n),
        },
{
    let mut i: usize = 0;
    while i < names.len()
        invariant
            i <= names@.len(),
            all_resolve(views(names@).take(i as int), *mgr),
        decreases names@.len() - i,
    {
        assert(views(names@)[i as int] == names@[i as int]@);
        match try_resolve_name_or_id(names[i].as_str(), mgr) {
            Ok(_) => {},
            Err(e) => {
                proof { lemma_first_unresolved_split(views(names@), *mgr, i as int); }
                return Err(e);
            },
        }
        assert forall|k: int| 0 <= k < i + 1 implies (#[trigger] resolve_spec(views(names@).take(i + 1)[k], *mgr)) is Some by {
            if k < i {
                assert(views(names@).take(i + 1)[k] == views(names@).take(i as int)[k]);
            }
        }
        i = i + 1;
    }
    assert(views(names@).take(i as int) =~= views(names@));
    proof { lemma_none_unresolved_iff_all_resolve(views(names@), *mgr); }
    Ok(resolve_all(names, mgr))
}

/// The candid encoding of one text argument.
pub uninterp spec fn candid_one_text(s: Seq<char>) -> Seq<u8>;

/// The candid encoding of a text argument followed by a vector of texts.
pub uninterp spec fn candid_text_and_texts(s: Seq<char>, v: Seq<Seq<char>>) -> Seq<u8>;

/// Calls `candid::encode_one` on a text. Claimed: it succeeds, and the bytes
/// are the named encoding of the text. For a text, every error path of
/// candid's `IDLBuilder` is a write into a `Vec`, which does not fail.
#[verifier::external_body]
pub(crate) fn encode_one_text(s: &str) -> (res: Option<Vec<u8>>)
    ensures
        res is Some,
        res matches Some(b) ==> b@ == candid_one_text(s@),
{
    candid::encode_one(s).ok()
}

/// Calls `candid::encode_args` on a text and a vector of texts. Claimed: it
/// succeeds, and the bytes are the named encoding of the two. For these
/// types, every error path of candid's `IDLBuilder` is a write into a `Vec`,
/// which does not fail, or the look-up of the vector type in the type table
/// that the same call filled.
#[verifier::external_body]
pub(crate) fn encode_text_and_texts(s: &str, v: &Vec<String>) -> (res: Option<Vec<u8>>)
    ensures
        res is Some,
        res matches Some(b) ==> b@ == candid_text_and_texts(s@, views(v@)),
{
    candid::encode_args((s, v)).ok()
}

/// The connection to an EVM chain that a canister is set up with: the RPC
/// endpoint, the sending address (none), the chain id and the environment.
#[derive(Clone, Debug)]
pub struct Web3CtxParam {
    pub url: String,
    pub from: Option<String>,
    pub chain_id: u64,
    pub env: SdkEnv,
}

/// The environment the canisters of a network are set up for.
pub open spec fn sdk_env_of(network: Network) -> SdkEnv {
    match network {
        Network::Local => SdkEnv::LocalDevelopment,
        Network::IC => SdkEnv::Production,
    }
}

/// The connection to the chain at `url` with id `chain_id`, for canisters of
/// `network`.
pub fn web3_ctx_param(url: &str, chain_id: u64, network: &Network) -> (res: Web3CtxParam)
    ensures
        res.url@ == url@,
        res.from is None,
        res.chain_id == chain_id,
        res.env == sdk_env_of(*network),
{
    Web3CtxParam { url: String::from_str(url), from: None, chain_id, env: network.to_sdk_env() }
}

} // verus!
