//! The cycles minting canister: its interface types and where it lives.

use vstd::prelude::*;
use candid::{Nat, Principal};
use crate::principal::{principal_from_text, principal_parse, principal_text_valid};

verus! {

pub enum ExchangeRateCanister {
    SetTo(Principal),
    Unset,
}

pub struct CyclesCanisterInitPayload {
    pub exchange_rate_canister: Option<ExchangeRateCanister>,
    pub cycles_ledger_canister_id: Option<Principal>,
    pub last_purged_notification: Option<u64>,
    pub governance_canister_id: Option<Principal>,
    pub minting_account_id: Option<String>,
    pub ledger_canister_id: Option<Principal>,
}

pub struct SubnetFilter {
    pub subnet_type: Option<String>,
}

pub enum SubnetSelection {
    Filter(SubnetFilter),
    Subnet { subnet: Principal },
}

pub enum LogVisibility {
    Controllers,
    Public,
}

pub struct CanisterSettings {
    pub freezing_threshold: Option<Nat>,
    pub wasm_memory_threshold: Option<Nat>,
    pub controllers: Option<Vec<Principal>>,
    pub reserved_cycles_limit: Option<Nat>,
    pub log_visibility: Option<LogVisibility>,
    pub wasm_memory_limit: Option<Nat>,
    pub memory_allocation: Option<Nat>,
    pub compute_allocation: Option<Nat>,
}

pub struct CreateCanisterArg {
    pub subnet_selection: Option<SubnetSelection>,
    pub settings: Option<CanisterSettings>,
    pub subnet_type: Option<String>,
}

pub enum CreateCanisterError {
    Refunded { create_error: String, refund_amount: Nat },
}

pub enum CreateCanisterResult {
    Created(Principal),
    Failed(CreateCanisterError),
}

pub struct IcpXdrConversionRate {
    pub xdr_permyriad_per_icp: u64,
    pub timestamp_seconds: u64,
}

pub struct PrincipalsAuthorizedToCreateCanistersToSubnetsResponse {
    pub data: Vec<(Principal, Vec<Principal>)>,
}

pub struct SubnetTypesToSubnetsResponse {
    pub data: Vec<(String, Vec<Principal>)>,
}

pub struct NotifyCreateCanisterArg {
    pub controller: Principal,
    pub block_index: u64,
    pub subnet_selection: Option<SubnetSelection>,
    pub settings: Option<CanisterSettings>,
    pub subnet_type: Option<String>,
}

pub enum NotifyError {
    Refunded { block_index: Option<u64>, reason: String },
    InvalidTransaction(String),
    Other { error_message: String, error_code: u64 },
    Processing,
    TransactionTooOld(u64),
}

pub enum NotifyCreateCanisterResult {
    Created(Principal),
    Failed(NotifyError),
}

pub struct NotifyMintCyclesSuccess {
    pub balance: Nat,
    pub block_index: Nat,
    pub minted: Nat,
}

pub enum NotifyMintCyclesResult {
    Minted(NotifyMintCyclesSuccess),
    Failed(NotifyError),
}

pub struct NotifyTopUpArg {
    pub block_index: u64,
    pub canister_id: Principal,
}

pub enum NotifyTopUpResult {
    ToppedUp(Nat),
    Failed(NotifyError),
}

/// The cycles minting canister at a principal.
pub struct Service(pub Principal);

/// The principal text of the cycles minting canister.
pub open spec fn cmc_principal_text() -> Seq<char> {
    "rkp4c-7iaaa-aaaaa-aaaca-cai"@
}

/// The cycles minting canister of the Internet Computer.
pub fn cmc() -> (res: Service)
    requires
        principal_text_valid(cmc_principal_text()),
    ensures
        principal_parse(cmc_principal_text()) == Some(res.0),
{
    Service(principal_from_text("rkp4c-7iaaa-aaaaa-aaaca-cai").unwrap())
}

/// The cycles minting canister, where candid accepts its principal text.
pub fn try_cmc() -> (res: Option<Service>)
    ensures
        res is Some <==> principal_text_valid(cmc_principal_text()),
        res matches Some(c) ==> principal_parse(cmc_principal_text()) == Some(c.0),
{
    match principal_from_text("rkp4c-7iaaa-aaaaa-aaaca-cai") {
        Some(_) => Some(cmc()),
        None => None,
    }
}

} // verus!
