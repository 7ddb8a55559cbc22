use csx::cmc::{cmc, try_cmc};

#[test]
fn cycles_minting_canister_principal() {
    assert_eq!(cmc().0.to_text(), "rkp4c-7iaaa-aaaaa-aaaca-cai");
    assert_eq!(try_cmc().unwrap().0, cmc().0);
}
