use csx::utils::{
    convert_camel_to_snake, did_path_if_file, find_duplicates, get_did_by_component_id, is_chainsight_project,
    load_env, project_root_check as check_root,
};

#[test]
fn test_load_env() {
    let vars = vec![("TEST_ENV".to_string(), "TEST".to_string()), ("TEST_ENV2".to_string(), "TEST2".to_string())];
    let contents = r#"
        TEST_ENV: ${TEST_ENV}
        TEST_ENV2: ${TEST_ENV2}
        test3: ${TEST_ENV}
        raw: raw
        "#;
    let expected = r#"
        TEST_ENV: TEST
        TEST_ENV2: TEST2
        test3: TEST
        raw: raw
        "#;
    let actual = load_env(contents, &vars);
    assert_eq!(actual, expected);
}

#[test]
fn test_load_env_without_env_file() {
    let contents = r#"
        TEST_ENV: ${TEST_ENV}
        TEST_ENV2: ${TEST_ENV2}
        test3: ${TEST_ENV}
        raw: raw
        "#;
    let expected = contents;
    let actual = load_env(contents, &vec![]);
    assert_eq!(actual, expected);
}

#[test]
fn later_variables_see_earlier_substitutions() {
    let vars = vec![("A".to_string(), "${B}".to_string()), ("B".to_string(), "b".to_string())];
    assert_eq!(load_env("${A}-${B}-$A", &vars), "b-b-$A");
}

#[test]
fn duplicates_are_listed_once_per_repeat() {
    let v: Vec<String> = ["a", "b", "a", "c", "a", "b"].iter().map(|s| s.to_string()).collect();
    assert_eq!(find_duplicates(&v), vec!["a".to_string(), "a".to_string(), "b".to_string()]);
    assert!(find_duplicates(&["x".to_string(), "y".to_string()]).is_empty());
    assert!(find_duplicates(&[]).is_empty());
}

#[test]
fn snake_case_names() {
    assert_eq!(convert_camel_to_snake("totalSupply"), "total_supply");
    assert_eq!(convert_camel_to_snake("balanceOf"), "balance_of");
    assert_eq!(convert_camel_to_snake("getPool"), "get_pool");
}

#[test]
fn project_root_check() {
    assert_eq!(
        is_chainsight_project(Some("/nonexistent/dir".to_string())).unwrap_err(),
        "'/nonexistent/dir' is not a chainsight project root (no '.chainsight' file exists)."
    );
    assert_eq!(get_did_by_component_id("surely_not_generated_here"), None);
}

#[test]
fn project_root_answer_on_each_outcome() {
    assert_eq!(check_root("my_project", true), Ok(()));
    assert_eq!(
        check_root("my_project", false).unwrap_err(),
        "'my_project' is not a chainsight project root (no '.chainsight' file exists)."
    );
    assert_eq!(did_path_if_file("lens", true), Some("src/canisters/lens/lens.did".to_string()));
    assert_eq!(did_path_if_file("lens", false), None);
}
