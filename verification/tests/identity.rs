use csx::dfx::DfxWrapperNetwork;
use csx::identity::{
    default_identity_path, get_path_to_home, get_wallet_id_in_ic, identity_file_path, identity_key_location,
    wallet_source, IdentityConfiguration, KeyLocation, WalletGlobalConfig, WalletNetworkMap, WalletSource,
};
use csx::types::Network;

#[test]
fn identity_paths() {
    assert_eq!(default_identity_path(), "~/.config/dfx/identity.json");
    assert_eq!(identity_file_path("alice", "wallets.json"), "~/.config/dfx/identity/alice/wallets.json");
}

#[test]
fn key_locations() {
    let keyring = IdentityConfiguration { keyring_identity_suffix: Some("alice".to_string()) };
    match identity_key_location("alice", &keyring) {
        KeyLocation::Keyring { service, entry } => {
            assert_eq!(service, "internet_computer_identities");
            assert_eq!(entry, "internet_computer_identity_alice");
        },
        _ => panic!("expected a keyring entry"),
    }
    match identity_key_location("bob", &IdentityConfiguration::default()) {
        KeyLocation::PemFile(p) => assert_eq!(p, "~/.config/dfx/identity/bob/identity.pem"),
        _ => panic!("expected a PEM file"),
    }
}

#[test]
fn wallet_sources() {
    assert!(matches!(wallet_source(&Network::IC, None, &Some("alice".to_string())), WalletSource::WalletsJson(p) if p == "~/.config/dfx/identity/alice/wallets.json"));
    assert!(matches!(wallet_source(&Network::IC, Some(1), &None), WalletSource::Dfx(DfxWrapperNetwork::IC)));
    assert!(matches!(wallet_source(&Network::Local, Some(8000), &Some("a".to_string())), WalletSource::Dfx(DfxWrapperNetwork::Local(Some(8000)))));
}

#[test]
fn wallet_in_wallets_file() {
    let p = candid::Principal::from_text("rrkah-fqaaa-aaaaa-aaaaq-cai").unwrap();
    let q = candid::Principal::from_text("ryjl3-tyaaa-aaaaa-aaaba-cai").unwrap();
    let config = WalletGlobalConfig {
        identities: vec![
            ("bob".to_string(), WalletNetworkMap { networks: vec![("local".to_string(), q)] }),
            ("alice".to_string(), WalletNetworkMap { networks: vec![("local".to_string(), q), ("ic".to_string(), p)] }),
        ],
    };
    assert_eq!(get_wallet_id_in_ic(&config, "alice").unwrap(), p);
    assert_eq!(get_wallet_id_in_ic(&config, "bob").unwrap_err(), "No ic network found");
    assert_eq!(get_wallet_id_in_ic(&config, "carol").unwrap_err(), "No default identity found");
}

#[test]
fn paths_under_home() {
    assert_eq!(get_path_to_home("~/.config/dfx/identity.json", Some("/home/u".to_string())), Some("/home/u/.config/dfx/identity.json".to_string()));
    assert_eq!(get_path_to_home("~/~/x", Some("/h".to_string())), Some("/h/x".to_string()));
    assert_eq!(get_path_to_home("~/x", None), None);
    assert_eq!(get_path_to_home("/etc/x", None), Some("/etc/x".to_string()));
}
