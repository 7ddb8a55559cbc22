use csx::abi::{abi_read_safe_exec, convert_type_from_abi_type, convert_type_from_ethabi_param_type, AbiType, ContractMethodIdentifier};

#[test]
fn test_parse_from_abi_str() {
    assert_eq!(
        ContractMethodIdentifier::parse_from_str("totalSupply()").unwrap(),
        ContractMethodIdentifier {
            identifier: "totalSupply".to_string(),
            params: vec![],
            return_value: vec![]
        }
    );
    assert_eq!(
        ContractMethodIdentifier::parse_from_str("totalSupply():(uint256)").unwrap(),
        ContractMethodIdentifier {
            identifier: "totalSupply".to_string(),
            params: vec![],
            return_value: vec!["ic_web3_rs::types::U256".to_string()]
        }
    );
    assert_eq!(
        ContractMethodIdentifier::parse_from_str("balanceOf(address):(uint256)").unwrap(),
        ContractMethodIdentifier {
            identifier: "balanceOf".to_string(),
            params: vec!["ic_web3_rs::types::Address".to_string()],
            return_value: vec!["ic_web3_rs::types::U256".to_string()]
        }
    );
    assert_eq!(
        ContractMethodIdentifier::parse_from_str("getPool(address,address,uint24):(address)").unwrap(),
        ContractMethodIdentifier {
            identifier: "getPool".to_string(),
            params: vec![
                "ic_web3_rs::types::Address".to_string(),
                "ic_web3_rs::types::Address".to_string(),
                "u32".to_string()
            ],
            return_value: vec!["ic_web3_rs::types::Address".to_string()]
        }
    );
}

#[test]
fn signatures_with_blanks_and_errors() {
    let m = ContractMethodIdentifier::parse_from_str("f(uint8, bool):(string, bytes)").unwrap();
    assert_eq!(m.identifier, "f");
    assert_eq!(m.params, vec!["u16".to_string(), "bool".to_string()]);
    assert_eq!(m.return_value, vec!["String".to_string(), "Vec<u8>".to_string()]);
    assert_eq!(
        ContractMethodIdentifier::parse_from_str("f(int256)").unwrap_err(),
        "ic_solidity_bindgen::internal::Unimplemented"
    );
    assert_eq!(ContractMethodIdentifier::parse_from_str("f(MyEnum)").unwrap().params, vec!["u16".to_string()]);
    assert!(ContractMethodIdentifier::parse_from_str("f(uintx)").is_err());
    assert!(ContractMethodIdentifier::try_parse_from_str("no brackets").is_none());
    assert!(ContractMethodIdentifier::try_parse_from_str("(uint256)").is_none());
    assert!(matches!(ContractMethodIdentifier::try_parse_from_str("g():(uint64)"), Some(Ok(_))));
}

#[test]
fn rust_types_of_abi_types() {
    assert_eq!(convert_type_from_ethabi_param_type(AbiType::Uint(8)).unwrap(), "u16");
    assert_eq!(convert_type_from_ethabi_param_type(AbiType::Uint(17)).unwrap(), "u32");
    assert_eq!(convert_type_from_ethabi_param_type(AbiType::Uint(64)).unwrap(), "u64");
    assert_eq!(convert_type_from_ethabi_param_type(AbiType::Uint(128)).unwrap(), "u128");
    assert_eq!(convert_type_from_ethabi_param_type(AbiType::Uint(256)).unwrap(), "ic_web3_rs::types::U256");
    assert_eq!(convert_type_from_ethabi_param_type(AbiType::Int(8)).unwrap(), "i8");
    assert_eq!(convert_type_from_ethabi_param_type(AbiType::Int(16)).unwrap(), "i16");
    assert_eq!(convert_type_from_ethabi_param_type(AbiType::Int(32)).unwrap(), "i32");
    assert_eq!(convert_type_from_ethabi_param_type(AbiType::Int(64)).unwrap(), "i64");
    assert_eq!(convert_type_from_ethabi_param_type(AbiType::Int(128)).unwrap(), "i128");
    assert!(convert_type_from_ethabi_param_type(AbiType::Int(256)).is_err());
    assert!(convert_type_from_ethabi_param_type(AbiType::Uint(0)).is_err());
    assert_eq!(convert_type_from_ethabi_param_type(AbiType::Address).unwrap(), "ic_web3_rs::types::Address");
    assert_eq!(convert_type_from_ethabi_param_type(AbiType::Bool).unwrap(), "bool");
    assert!(convert_type_from_ethabi_param_type(AbiType::Tuple).is_err());
    assert_eq!(convert_type_from_abi_type("uint24").unwrap(), "u32");
    assert_eq!(convert_type_from_abi_type("address").unwrap(), "ic_web3_rs::types::Address");
    assert_eq!(convert_type_from_abi_type("bytes").unwrap(), "Vec<u8>");
    assert!(convert_type_from_abi_type("uint256[]").is_err());
}

#[test]
fn reader_panics_are_kept_out() {
    assert!(!abi_read_safe_exec("]"));
    assert!(!abi_read_safe_exec("5]"));
    assert!(!abi_read_safe_exec("(é,a)"));
    assert!(!abi_read_safe_exec("é[]"));
    assert!(abi_read_safe_exec("uint256[]"));
    assert!(abi_read_safe_exec("uint256[3]"));
    assert!(abi_read_safe_exec("x]"));
    assert!(abi_read_safe_exec("address"));
    assert!(ContractMethodIdentifier::try_parse_from_str("f(])").is_none());
    assert_eq!(
        ContractMethodIdentifier::try_parse_from_str("f(uint256[])").unwrap().unwrap_err(),
        "ic_solidity_bindgen::internal::Unimplemented"
    );
    assert_eq!(convert_type_from_abi_type("uint8[2]").unwrap_err(), "ic_solidity_bindgen::internal::Unimplemented");
}
