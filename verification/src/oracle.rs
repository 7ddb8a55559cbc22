//! The oracle contracts that relayers write to.

use vstd::prelude::*;

verus! {

/// The address of the oracle contract on a chain, without `0x`; empty where
/// none is deployed.
pub open spec fn oracle_address_spec(network_id: u32) -> Seq<char> {
    if network_id == 80001 { "0539a0EF8e5E60891fFf0958A059E049e43020d9"@ } else { ""@ }
}

pub fn get_oracle_address(network_id: u32) -> (res: String)
    ensures
        res@ == oracle_address_spec(network_id),
{
    let address = if network_id == 80001 { "0539a0EF8e5E60891fFf0958A059E049e43020d9" } else { "" };
    String::from_str(address)
}

} // verus!
