use csx::method_identifier::{create_candid_rust_binding, extract_elements, generate_did_type, strip_comment_lines, trim, CanisterMethodIdentifier};

#[test]
fn test_extract_elements_multi_nested_record() {
    let s =
        "icrc2_allowance : (record { account : record { owner : principal; subaccount : opt blob }; spender : record { owner : principal; subaccount : opt blob } }) -> (record { allowance : nat; expires_at : opt nat64 })";
    let (identifier, args_ty, response_ty) = extract_elements(s).expect("Failed to parse");
    assert_eq!(identifier, "icrc2_allowance");
    assert_eq!(args_ty, "record { account : record { owner : principal; subaccount : opt blob }; spender : record { owner : principal; subaccount : opt blob } }");
    assert_eq!(
        response_ty,
        "record { allowance : nat; expires_at : opt nat64 }"
    );
}

#[test]
fn extract_elements_of_simple_identifiers() {
    let (i, a, r) = extract_elements("update_value : (nat64) -> (text)").unwrap();
    assert_eq!((i.as_str(), a.as_str(), r.as_str()), ("update_value", "nat64", "text"));
    let (i, a, r) = extract_elements("get_value : () -> (text)").unwrap();
    assert_eq!((i.as_str(), a.as_str(), r.as_str()), ("get_value", "", "text"));
    let (i, a, r) = extract_elements("f:(( x ))->( (y) )").unwrap();
    assert_eq!((i.as_str(), a.as_str(), r.as_str()), ("f", "x", "(y)"));
}

#[test]
fn test_generate_did() {
    assert_eq!(
        generate_did_type("Account", "record { owner : principal; subaccount : opt blob }"),
        "type Account = record { owner : principal; subaccount : opt blob };"
    );
    assert_eq!(
        CanisterMethodIdentifier::generate_did("nat64", "text"),
        "type RequestArgsType = nat64;\ntype ResponseType = text;"
    );
    assert_eq!(CanisterMethodIdentifier::generate_did("", "text"), "\ntype ResponseType = text;");
    assert_eq!(CanisterMethodIdentifier::generate_did("", ""), "\n");
}

#[test]
fn trimming() {
    assert_eq!(trim("  a b \t\n", false), "a b");
    assert_eq!(trim("((a))", true), "a");
    assert_eq!(trim("\u{3000}x\u{a0}", false), "x");
}

#[test]
fn comment_and_blank_lines_are_dropped() {
    assert_eq!(strip_comment_lines("// c\n\nuse x;\r\n  // kept\nstruct A;\n"), "use x;\n  // kept\nstruct A;");
    assert_eq!(strip_comment_lines(""), "");
}

#[test]
fn method_identifiers_read_with_candid() {
    let ident = CanisterMethodIdentifier::try_new(
        "get_snapshot : (nat64) -> (record { value : text; timestamp : nat64 })",
    )
    .unwrap();
    assert_eq!(ident.identifier(), "get_snapshot");
    let (args, resp) = ident.get_types();
    assert!(args.is_some());
    assert!(resp.is_some());
    assert!(ident.bindable());
    let compiled = ident.compile();
    assert_eq!(ident.try_compile(), Some(compiled.clone()));
    assert!(compiled.contains("pub struct ResponseType"));
    assert!(!compiled.contains("//"));
    let ident = CanisterMethodIdentifier::try_new("get_value : () -> (text)").unwrap();
    assert!(ident.get_types().0.is_none());
    assert!(CanisterMethodIdentifier::try_new("no separators").is_none());
    assert!(CanisterMethodIdentifier::try_new("f : (record {) -> (text)").is_none());
}

#[test]
fn test_extract_elements() {
    let cases = [
        ("update_value : (nat64) -> (text)", ("update_value", "nat64", "text")),
        ("get_value : () -> (text)", ("get_value", "", "text")),
        (
            "get_snapshot : (nat64) -> (record { value : text; timestamp : nat64 })",
            ("get_snapshot", "nat64", "record { value : text; timestamp : nat64 }"),
        ),
        (
            "get_last_snapshot : () -> (record { dai : record { usd : float64 } })",
            ("get_last_snapshot", "", "record { dai : record { usd : float64 } }"),
        ),
    ];
    for (s, (i, a, r)) in cases {
        let (identifier, args_ty, response_ty) = extract_elements(s).expect("Failed to parse");
        assert_eq!((identifier.as_str(), args_ty.as_str(), response_ty.as_str()), (i, a, r));
    }
}

#[test]
fn types_modules_from_bindings() {
    assert_eq!(
        csx::method_identifier::generate_types_from_bindings(
            "sample",
            "get_last_snapshot : () -> (record { value : text; timestamp : nat64 })"
        )
        .unwrap(),
        "use sample_bindings as bindings;\npub type ResponseType = bindings::ResponseType;\n"
    );
    assert_eq!(
        csx::method_identifier::generate_types_from_bindings("x", "get : (nat64) -> (text)").unwrap(),
        "use x_bindings as bindings;\npub type ResponseType = bindings::ResponseType;\npub type RequestArgsType = bindings::RequestArgsType;"
    );
    assert_eq!(
        csx::method_identifier::generate_types_from_bindings("x", "no arrow here").unwrap_err(),
        "Invalid canister method identifier"
    );
}

#[test]
fn bindings_need_a_type_checked_program() {
    let ident = CanisterMethodIdentifier::try_new("f : (text) -> (func (nat) -> (nat) query)").unwrap();
    assert!(ident.bindable());
    assert!(ident.try_compile().unwrap().contains("define_function!"));
    let ident = CanisterMethodIdentifier::try_new("f : (Unknown) -> (text)").unwrap();
    assert!(!ident.bindable());
}

#[test]
fn rust_bindings_of_candid_text() {
    let b = create_candid_rust_binding("type A = record { owner : principal; amount : nat };").unwrap();
    assert!(b.contains("pub struct A"));
    assert!(b.contains(" pub owner: Principal"));
    assert!(b.contains(" pub amount: candid::Nat"));
    assert!(!b.contains("use ic_cdk::api::call::CallResult as Result;"));
    assert!(create_candid_rust_binding("type A = record {").is_none());
    assert!(create_candid_rust_binding("type A = B;").is_none());
}
