use csx::dfx::{DfxCommand, DfxWrapper, DfxWrapperNetwork, Version};

#[test]
fn test_url_to_filename_for_dfx_local() {
    assert_eq!(
        DfxWrapperNetwork::Local(Some(8000)).to_path(),
        "http___localhost_8000"
    );
    assert_eq!(DfxWrapperNetwork::Local(None).to_path(), "local");
}

#[test]
fn network_values_and_args() {
    assert_eq!(DfxWrapperNetwork::IC.value(), "https://ic0.app/");
    assert_eq!(DfxWrapperNetwork::Local(Some(4943)).value(), "http://localhost:4943");
    assert_eq!(DfxWrapperNetwork::Local(Some(0)).value(), "http://localhost:0");
    assert_eq!(DfxWrapperNetwork::Local(None).value(), "local");
    assert_eq!(DfxWrapperNetwork::IC.args(), vec!["--network".to_string(), "ic".to_string()]);
    assert_eq!(
        DfxWrapperNetwork::Local(Some(65535)).args(),
        vec!["--network".to_string(), "http://localhost:65535".to_string()]
    );
    assert_eq!(DfxWrapperNetwork::IC.to_path(), "ic");
}

#[test]
fn version_parsing() {
    let v = Version::parse("0.20.1").unwrap();
    assert_eq!((v.major, v.minor, v.patch), (0, 20, 1));
    assert_eq!(v.pre_release, None);
    let v = Version::parse("1.2.3-beta.1-x").unwrap();
    assert_eq!((v.major, v.minor, v.patch), (1, 2, 3));
    assert_eq!(v.pre_release, Some("beta.1".to_string()));
    assert_eq!(v.to_string(), "1.2.3-beta.1");
    assert_eq!(Version::parse("+1.2.3").unwrap().major, 1);
    assert_eq!(Version::parse("1.2").unwrap_err(), "Invalid version string");
    assert_eq!(Version::parse("a.2.3").unwrap_err(), "Invalid major version");
    assert_eq!(Version::parse("1..3").unwrap_err(), "Invalid minor version");
    assert_eq!(Version::parse("1.2.4294967296").unwrap_err(), "Invalid patch version");
    assert_eq!(Version::parse("1.2.4294967295").unwrap().patch, 4294967295);
    let parsed: Version = "0.1.0".parse().unwrap();
    assert_eq!(parsed, Version::parse("0.1.0").unwrap());
    assert!(Version::parse("0.9.0").unwrap() < Version::parse("0.10.0").unwrap());
}

#[test]
fn version_from_dfx_output() {
    let v = DfxWrapper::version(Ok("dfx 0.15.2\n".to_string())).unwrap();
    assert_eq!(v.to_string(), "0.15.2");
    assert_eq!(DfxWrapper::version(Err("boom".to_string())).unwrap_err(), "boom");
    assert_eq!(
        DfxWrapper::version(Ok("dfx 0.15\n".to_string())).unwrap_err(),
        "Invalid version string"
    );
    let (w, v) = DfxWrapper::new(DfxWrapperNetwork::IC, None, Ok("dfx 0.1.0-beta\n".to_string())).unwrap();
    assert_eq!(v.to_string(), "0.1.0-beta");
    assert_eq!(w.execution_dir(), ".");
}

#[test]
fn dfx_commands() {
    let w = DfxWrapper { execution_dir_str: Some("pj".to_string()), network: DfxWrapperNetwork::Local(Some(8000)) };
    let c = w.ping();
    assert_eq!(c.dir, "pj");
    assert_eq!(c.args, vec!["ping".to_string(), "http://localhost:8000".to_string()]);
    assert_eq!(w.identity_whoami().args, vec!["identity".to_string(), "whoami".to_string()]);
    assert_eq!(
        w.identity_get_wallet().args,
        vec!["identity", "get-wallet", "--network", "http://localhost:8000"]
            .into_iter()
            .map(String::from)
            .collect::<Vec<_>>()
    );
    let w = DfxWrapper { execution_dir_str: None, network: DfxWrapperNetwork::IC };
    assert_eq!(
        w.identity_get_principal().args,
        vec!["identity", "get-principal", "--network", "ic"]
            .into_iter()
            .map(String::from)
            .collect::<Vec<_>>()
    );
    assert_eq!(DfxWrapper::version_command().args, vec!["--version".to_string()]);
    assert_eq!(DfxCommand::finish(Ok("me\r\n\n".to_string())).unwrap(), "me");
    assert_eq!(DfxCommand::finish(Err("bad\n".to_string())).unwrap_err(), "bad\n");
}
