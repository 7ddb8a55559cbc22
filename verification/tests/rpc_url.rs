use csx::rpc_url::{ipv6_verdict, precheck_url};

#[test]
fn urls_refused_before_any_lookup() {
    assert_eq!(precheck_url("http://eth.llamarpc.com").unwrap_err(), "Only HTTPS is acceptable for RPC URL, but got: http");
    assert_eq!(precheck_url("https://127.0.0.1:8545").unwrap_err(), "IPv4 address is not acceptable in Internet Computer");
    assert_eq!(precheck_url("https://[2001:db8::1]/rpc").unwrap(), None);
    assert_eq!(
        precheck_url("https://eth-mainnet.g.alchemy.com/v2/${KEY}").unwrap(),
        Some("eth-mainnet.g.alchemy.com".to_string())
    );
    assert!(precheck_url("not a url").is_err());
}

#[test]
fn verdict_on_lookups() {
    assert!(ipv6_verdict(Ok(vec![false, true])).is_ok());
    assert_eq!(
        ipv6_verdict(Ok(vec![false])).unwrap_err(),
        "No IPv6 address found, IPv4 address is not acceptable in Internet Computer"
    );
    assert_eq!(ipv6_verdict(Ok(vec![])).unwrap_err(), "No IPv6 address found, IPv4 address is not acceptable in Internet Computer");
    assert_eq!(ipv6_verdict(Err("lookup failed".to_string())).unwrap_err(), "lookup failed");
}
