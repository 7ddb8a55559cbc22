use csx::paths::{
    accessors_dependency, accessors_name, accessors_path_str, bindings_dependency, bindings_name,
    bindings_path_str, canister_did_path_str, canister_name, canisters_path_str, logic_dependency,
    logics_path_str, src_path_str,
};

#[test]
fn test_funcs_to_get_path_str() {
    assert_eq!(src_path_str("pj_root"), "pj_root/src");

    let cases: Vec<(fn(&str, &str) -> String, &str, &str)> = vec![
        (logics_path_str, "logics", ""),
        (canisters_path_str, "canisters", ""),
        (bindings_path_str, "bindings", "_bindings"),
        (accessors_path_str, "accessors", "_accessors"),
    ];
    for (func_to_test, dir, suffix) in cases {
        assert_eq!(
            func_to_test("src", "component"),
            format!("src/{}/component{}", dir, suffix)
        );
    }

    assert_eq!(
        canister_did_path_str("src", "component"),
        "src/canisters/component/component.did"
    );
}

#[test]
fn test_funcs_for_name() {
    assert_eq!(canister_name("sample"), "sample_canister".to_owned());
    assert_eq!(bindings_name("sample"), "sample_bindings".to_owned());
    assert_eq!(accessors_name("sample"), "sample_accessors".to_owned());
}

#[test]
fn test_funcs_for_dependency() {
    assert_eq!(
        logic_dependency("sample"),
        r#"sample = { path = "../../logics/sample" }"#.to_owned()
    );
    assert_eq!(
        bindings_dependency("sample"),
        r#"sample_bindings = { path = "../../bindings/sample_bindings" }"#.to_owned()
    );
    assert_eq!(
        accessors_dependency("sample"),
        r#"sample_accessors = { path = "../../accessors/sample_accessors" }"#.to_owned()
    );
}

#[test]
fn paths_with_empty_component() {
    assert_eq!(canister_did_path_str("", ""), "/canisters//.did");
    assert_eq!(bindings_path_str("a", "b"), "a/bindings/b_bindings");
}
