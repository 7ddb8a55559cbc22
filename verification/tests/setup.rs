use csx::component_ids::ComponentIdsManager;
use csx::dfx::DfxWrapperNetwork;
use csx::setup::{try_resolve_all, try_resolve_name_or_id};

#[test]
fn names_and_ids_resolve() {
    let mut ids = ComponentIdsManager::new(&DfxWrapperNetwork::Local(Some(4943)));
    ids.add("lens".to_string(), "bkyz2-fmaaa-aaaaa-qaaaq-cai".to_string());
    assert_eq!(try_resolve_name_or_id("rrkah-fqaaa-aaaaa-aaaaq-cai", &ids).unwrap(), "rrkah-fqaaa-aaaaa-aaaaq-cai");
    assert_eq!(try_resolve_name_or_id("lens", &ids).unwrap(), "bkyz2-fmaaa-aaaaa-qaaaq-cai");
    assert_eq!(try_resolve_name_or_id("other", &ids).unwrap_err(), "Failed to get canister id for other");
    assert_eq!(
        try_resolve_all(&vec!["lens".to_string(), "rrkah-fqaaa-aaaaa-aaaaq-cai".to_string()], &ids).unwrap(),
        vec!["bkyz2-fmaaa-aaaaa-qaaaq-cai".to_string(), "rrkah-fqaaa-aaaaa-aaaaq-cai".to_string()]
    );
    assert_eq!(
        try_resolve_all(&vec!["lens".to_string(), "x".to_string(), "y".to_string()], &ids).unwrap_err(),
        "Failed to get canister id for x"
    );
    let mut ic = ComponentIdsManager::new(&DfxWrapperNetwork::IC);
    ic.restore("lens".to_string(), "http___localhost_4943".to_string(), "bkyz2-fmaaa-aaaaa-qaaaq-cai".to_string());
    assert!(try_resolve_name_or_id("lens", &ic).is_err());
}
