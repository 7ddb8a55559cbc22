use csx::component_ids::ComponentIdsManager;
use csx::dfx::DfxWrapperNetwork;

#[test]
fn add_get_and_list() {
    let mut m = ComponentIdsManager::new(&DfxWrapperNetwork::Local(Some(4943)));
    assert_eq!(m.get("b"), None);
    assert!(!m.contains_key("b"));
    m.add("b".to_string(), "id-b".to_string());
    m.add("a".to_string(), "id-a".to_string());
    m.add("c".to_string(), "id-c".to_string());
    m.add("b".to_string(), "id-b2".to_string());
    assert_eq!(m.get("b"), Some("id-b2".to_string()));
    assert_eq!(m.get("a"), Some("id-a".to_string()));
    assert!(m.contains_key("c"));
    assert_eq!(
        m.get_all_entries(),
        vec![
            ("a".to_string(), "id-a".to_string()),
            ("b".to_string(), "id-b2".to_string()),
            ("c".to_string(), "id-c".to_string()),
        ]
    );
}

#[test]
fn other_networks_are_kept_apart() {
    let mut m = ComponentIdsManager::new(&DfxWrapperNetwork::IC);
    m.restore("x".to_string(), "http___localhost_8000".to_string(), "local-id".to_string());
    assert!(m.contains_key("x"));
    assert_eq!(m.get("x"), None);
    m.add("x".to_string(), "ic-id".to_string());
    assert_eq!(m.get("x"), Some("ic-id".to_string()));
    assert_eq!(m.get_all_entries(), vec![("x".to_string(), "ic-id".to_string())]);
}

#[test]
fn record_location() {
    assert_eq!(
        ComponentIdsManager::filepath(&DfxWrapperNetwork::IC),
        ("canister_ids.json".to_string(), None)
    );
    assert_eq!(
        ComponentIdsManager::filepath(&DfxWrapperNetwork::Local(None)),
        ("canister_ids.json".to_string(), Some(".dfx/local".to_string()))
    );
}

#[test]
fn saved_records_load_back() {
    let mut m = ComponentIdsManager::new(&DfxWrapperNetwork::IC);
    m.add("b".to_string(), "id-b".to_string());
    m.restore("a".to_string(), "local".to_string(), "a-local".to_string());
    m.add("a".to_string(), "a-ic".to_string());
    let saved = m.records();
    assert_eq!(
        saved,
        vec![
            ("a".to_string(), vec![("local".to_string(), "a-local".to_string()), ("ic".to_string(), "a-ic".to_string())]),
            ("b".to_string(), vec![("ic".to_string(), "id-b".to_string())]),
        ]
    );
    let back = ComponentIdsManager::from_records(&DfxWrapperNetwork::IC, &saved);
    assert_eq!(back.records(), saved);
    assert_eq!(back.get("a"), Some("a-ic".to_string()));
    let local = ComponentIdsManager::from_records(&DfxWrapperNetwork::Local(None), &saved);
    assert_eq!(local.get("a"), Some("a-local".to_string()));
    assert_eq!(local.get("b"), None);
}

#[test]
fn record_files() {
    assert_eq!(
        ComponentIdsManager::record_location(&DfxWrapperNetwork::IC, "/pj/artifacts"),
        ("/pj/artifacts".to_string(), "/pj/artifacts/canister_ids.json".to_string())
    );
    assert_eq!(
        ComponentIdsManager::record_location(&DfxWrapperNetwork::Local(Some(8000)), "art"),
        ("art/.dfx/http___localhost_8000".to_string(), "art/.dfx/http___localhost_8000/canister_ids.json".to_string())
    );
}
