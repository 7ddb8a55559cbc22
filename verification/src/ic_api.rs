//! What the Internet Computer's public API tells about a canister.

use vstd::prelude::*;

verus! {

/// A canister as the public dashboard API describes it.
#[derive(Clone, Debug)]
pub struct CanisterResponse {
    pub canister_id: String,
    pub controllers: Vec<String>,
    pub enabled: bool,
    pub id: u64,
    pub module_hash: String,
    pub name: String,
    pub subnet_id: String,
    pub updated_at: String,
}

/// The base URL of that API.
pub const BASE_URL: &'static str = "https://ic-api.internetcomputer.org/api/v3";

/// The URL that describes a canister.
pub fn canister_url(canister_id: &str) -> (res: String)
    ensures
        res@ == "https://ic-api.internetcomputer.org/api/v3/canisters/"@ + canister_id@,
{
    let mut res = String::from_str("https://ic-api.internetcomputer.org/api/v3/canisters/");
    res.append(canister_id);
    res
}

/// Whether a failed request should be tried again: while fewer than the
/// allowed retries (three unless said otherwise) have been made.
pub fn should_retry(retry: u8, max_retry: Option<u8>) -> (res: bool)
    ensures
        res == (retry < match max_retry { Some(m) => m, None => 3u8 }),
{
    let max = match max_retry { Some(m) => m, None => 3 };
    retry < max
}

} // verus!
