//! Datasource and destination descriptions of snapshot and relayer
//! components, and the fields every component manifest shares.

use vstd::prelude::*;
use crate::types::ComponentType;
use crate::text::views;

verus! {

/// Whether a component reads a canister or a contract.
#[derive(Clone, Copy, Debug, PartialEq, Eq, Structural)]
pub enum DatasourceType {
    Canister,
    Contract,
}

/// The kind of oracle a relayer writes to.
#[derive(Clone, Copy, Debug, PartialEq, Eq, Structural)]
pub enum DestinactionType {
    Uint256Oracle,
    StringOracle,
}

/// A record type returned by a datasource method.
#[derive(Clone, Debug)]
pub struct DatasourceMethodCustomStruct {
    pub name: String,
    pub fields: Vec<DatasourceMethodCustomStructField>,
}

/// One field of such a record.
#[derive(Clone, Debug)]
pub struct DatasourceMethodCustomStructField {
    pub name: String,
    pub type_: String,
}

/// A tuple type returned by a datasource method.
#[derive(Clone, Debug)]
pub struct DatasourceMethodCustomType {
    pub name: String,
    pub types: Vec<String>,
}

/// The oracle a relayer writes to, and how often.
#[derive(Clone, Debug)]
pub struct DestinationField {
    pub network_id: u32,
    pub type_: DestinactionType,
    pub oracle_address: String,
    pub rpc_url: String,
    pub interval: u32,
}

impl DestinationField {
    /// The sample destination: the oracle on Polygon Mumbai, hourly.
    pub fn default() -> (res: Self)
        ensures
            res.network_id == 80001,
            res.type_ == DestinactionType::Uint256Oracle,
            res.oracle_address@ == "0539a0EF8e5E60891fFf0958A059E049e43020d9"@,
            res.rpc_url@ == "https://polygon-mumbai.g.alchemy.com/v2/<YOUR_KEY>"@,
            res.interval == 3600,
    {
        Self::new(
            80001,
            DestinactionType::Uint256Oracle,
            String::from_str("0539a0EF8e5E60891fFf0958A059E049e43020d9"),
            String::from_str("https://polygon-mumbai.g.alchemy.com/v2/<YOUR_KEY>"),
            3600,
        )
    }

    pub fn new(network_id: u32, destination_type: DestinactionType, oracle_address: String, rpc_url: String, interval: u32) -> (res: Self)
        ensures
            res.network_id == network_id,
            res.type_ == destination_type,
            res.oracle_address == oracle_address,
            res.rpc_url == rpc_url,
            res.interval == interval,
    {
        DestinationField { network_id, type_: destination_type, oracle_address, rpc_url, interval }
    }
}

/// The fields every component manifest starts with.
#[derive(Clone, Debug)]
pub struct CommonComponentManifest {
    pub version: String,
    pub type_: ComponentType,
    pub label: String,
}

/// An argument a datasource method is called with: its type and its value.
#[derive(Debug)]
pub struct DatasourceMethodArg {
    pub type_: String,
    pub value: serde_yaml::Value,
}

/// The method a component calls on its datasource, with the types of what
/// it returns.
#[derive(Debug)]
pub struct DatasourceMethod {
    pub identifier: String,
    pub interface: Option<String>,
    pub args: Vec<DatasourceMethodArg>,
    pub response_types: Vec<String>,
    pub custom_struct: Option<Vec<DatasourceMethodCustomStruct>>,
    pub custom_type: Option<Vec<DatasourceMethodCustomType>>,
}

/// A canister or contract a component reads, and the method it calls.
#[derive(Debug)]
pub struct Datasource {
    pub type_: DatasourceType,
    pub id: String,
    pub method: DatasourceMethod,
}

/// The placeholder address a new contract datasource starts with.
pub open spec fn placeholder_contract_id() -> Seq<char> {
    "0000000000000000000000000000000000000000"@
}

/// The placeholder id a new canister datasource starts with.
pub open spec fn placeholder_canister_id() -> Seq<char> {
    "xxxxx-xxxxx-xxxxx-xxxxx-xxx"@
}

impl Datasource {
    /// The sample contract datasource: the total supply of an ERC-20 token.
    pub fn default_contract() -> (res: Self)
        ensures
            res.type_ == DatasourceType::Contract,
            res.id@ == placeholder_contract_id(),
            res.method.identifier@ == "totalSupply()"@,
            res.method.interface matches Some(i) && i@ == "ERC20.json"@,
            res.method.args@.len() == 0,
            views(res.method.response_types@) == seq!["ic_web3::types::U256"@],
            res.method.custom_struct is None,
            res.method.custom_type is None,
    {
        let mut response_types = Vec::new();
        response_types.push(String::from_str("ic_web3::types::U256"));
        assert(views(response_types@) =~= seq!["ic_web3::types::U256"@]);
        Datasource {
            type_: DatasourceType::Contract,
            id: String::from_str("0000000000000000000000000000000000000000"),
            method: DatasourceMethod {
                identifier: String::from_str("totalSupply()"),
                interface: Some(String::from_str("ERC20.json")),
                args: Vec::new(),
                response_types,
                custom_struct: None,
                custom_type: None,
            },
        }
    }

    /// A contract datasource calling `identifier`, at the placeholder
    /// address.
    pub fn new_contract(
        identifier: String,
        interface: Option<String>,
        response_type: String,
        custom_struct: Option<Vec<DatasourceMethodCustomStruct>>,
        custom_type: Option<Vec<DatasourceMethodCustomType>>,
    ) -> (res: Self)
        ensures
            res.type_ == DatasourceType::Contract,
            res.id@ == placeholder_contract_id(),
            res.method.identifier == identifier,
            res.method.interface == interface,
            res.method.args@.len() == 0,
            res.method.response_types@ == seq![response_type],
            res.method.custom_struct == custom_struct,
            res.method.custom_type == custom_type,
    {
        let mut response_types = Vec::new();
        response_types.push(response_type);
        Datasource {
            type_: DatasourceType::Contract,
            id: String::from_str("0000000000000000000000000000000000000000"),
            method: DatasourceMethod { identifier, interface, args: Vec::new(), response_types, custom_struct, custom_type },
        }
    }

    /// The sample canister datasource: the last snapshot of another
    /// component, a record of a text value and a timestamp.
    pub fn default_canister() -> (res: Self)
        ensures
            res.type_ == DatasourceType::Canister,
            res.id@ == placeholder_canister_id(),
            res.method.identifier@ == "get_last_snapshot()"@,
            res.method.interface is None,
            res.method.args@.len() == 0,
            views(res.method.response_types@) == seq!["ResponseType"@],
            res.method.custom_struct matches Some(cs) && cs@.len() == 1 && cs@[0].name@ == "ResponseType"@
                && cs@[0].fields@.len() == 2
                && cs@[0].fields@[0].name@ == "value"@ && cs@[0].fields@[0].type_@ == "ResponseValueType"@
                && cs@[0].fields@[1].name@ == "timestamp"@ && cs@[0].fields@[1].type_@ == "u64"@,
            res.method.custom_type matches Some(ct) && ct@.len() == 1 && ct@[0].name@ == "ResponseValueType"@
                && views(ct@[0].types@) == seq!["String"@],
    {
        let mut response_types = Vec::new();
        response_types.push(String::from_str("ResponseType"));
        assert(views(response_types@) =~= seq!["ResponseType"@]);
        let mut fields = Vec::new();
        fields.push(DatasourceMethodCustomStructField { name: String::from_str("value"), type_: String::from_str("ResponseValueType") });
        fields.push(DatasourceMethodCustomStructField { name: String::from_str("timestamp"), type_: String::from_str("u64") });
        let mut custom_struct = Vec::new();
        custom_struct.push(DatasourceMethodCustomStruct { name: String::from_str("ResponseType"), fields });
        let mut types = Vec::new();
        types.push(String::from_str("String"));
        assert(views(types@) =~= seq!["String"@]);
        let mut custom_type = Vec::new();
        custom_type.push(DatasourceMethodCustomType { name: String::from_str("ResponseValueType"), types });
        Datasource {
            type_: DatasourceType::Canister,
            id: String::from_str("xxxxx-xxxxx-xxxxx-xxxxx-xxx"),
            method: DatasourceMethod {
                identifier: String::from_str("get_last_snapshot()"),
                interface: None,
                args: Vec::new(),
                response_types,
                custom_struct: Some(custom_struct),
                custom_type: Some(custom_type),
            },
        }
    }

    /// A canister datasource calling `identifier`, at the placeholder id.
    pub fn new_canister(
        identifier: String,
        interface: Option<String>,
        response_type: String,
        custom_struct: Option<Vec<DatasourceMethodCustomStruct>>,
        custom_type: Option<Vec<DatasourceMethodCustomType>>,
    ) -> (res: Self)
        ensures
            res.type_ == DatasourceType::Canister,
            res.id@ == placeholder_canister_id(),
            res.method.identifier == identifier,
            res.method.interface == interface,
            res.method.args@.len() == 0,
            res.method.response_types@ == seq![response_type],
            res.method.custom_struct == custom_struct,
            res.method.custom_type == custom_type,
    {
        let mut response_types = Vec::new();
        response_types.push(response_type);
        Datasource {
            type_: DatasourceType::Canister,
            id: String::from_str("xxxxx-xxxxx-xxxxx-xxxxx-xxx"),
            method: DatasourceMethod { identifier, interface, args: Vec::new(), response_types, custom_struct, custom_type },
        }
    }
}

} // verus!
