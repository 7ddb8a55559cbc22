use csx::templates::logic_cargo_toml;
use csx::component_ids::ComponentIdsManager;
use csx::dfx::{remove_trailing_newline, DfxCommand, DfxWrapperNetwork};
use csx::paths::{canisters_path_str, logics_path_str};
use csx::utils::load_env;

#[test]
fn text_without_placeholders_is_kept() {
    let vars = vec![("HOME".to_string(), "/root".to_string()), ("X".to_string(), "y".to_string())];
    assert_eq!(load_env("version: v1\nlabel: sample {X}\n", &vars), "version: v1\nlabel: sample {X}\n");
}

#[test]
fn component_directories_differ() {
    assert_ne!(canisters_path_str("src", "a"), canisters_path_str("src", "ab"));
    assert_ne!(logics_path_str("src", "a_b"), logics_path_str("src", "a"));
}

#[test]
fn cleaned_output_is_stable() {
    let once = DfxCommand::finish(Ok("dfx 0.20.1\r\n\n".to_string())).unwrap();
    assert_eq!(once, "dfx 0.20.1");
    assert_eq!(remove_trailing_newline(once.clone()), once);
    assert_eq!(DfxCommand::finish(Err("boom\n".to_string())).unwrap_err(), "boom\n");
}

#[test]
fn adding_twice_changes_nothing_more() {
    let mut m = ComponentIdsManager::new(&DfxWrapperNetwork::Local(None));
    m.add("x".to_string(), "id".to_string());
    let first = m.records();
    m.add("x".to_string(), "id".to_string());
    assert_eq!(m.records(), first);
}

#[test]
fn logic_manifest_depends_only_on_whether_there_are_dependencies() {
    let a = logic_cargo_toml("p", true, vec!["x".to_string()]);
    let b = logic_cargo_toml("p", true, vec!["y".to_string(), "z".to_string()]);
    assert_eq!(a, b);
    assert_ne!(a, logic_cargo_toml("p", true, vec![]));
}
