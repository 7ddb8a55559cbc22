//! Checks on the RPC endpoints that components call from the Internet
//! Computer, which reaches other hosts only over HTTPS and IPv6.

use vstd::prelude::*;

verus! {

/// The host of a URL, as far as the endpoint rules look at it.
pub enum UrlHost {
    Ipv4,
    Ipv6,
    Domain(String),
}

/// A parsed URL: its scheme and its host, if it has one.
pub struct ParsedUrl {
    pub scheme: String,
    pub host: Option<UrlHost>,
}

/// The view of a URL's host.
pub enum HostView {
    Ipv4,
    Ipv6,
    Domain(Seq<char>),
}

/// The view of a parsed URL.
pub struct UrlView {
    pub scheme: Seq<char>,
    pub host: Option<HostView>,
}

impl View for ParsedUrl {
    type V = UrlView;

    open spec fn view(&self) -> UrlView {
        UrlView {
            scheme: self.scheme@,
            host: match self.host {
                None => None,
                Some(UrlHost::Ipv4) => Some(HostView::Ipv4),
                Some(UrlHost::Ipv6) => Some(HostView::Ipv6),
                Some(UrlHost::Domain(d)) => Some(HostView::Domain(d@)),
            },
        }
    }
}

/// What `url::Url` parsing gives for a text: the URL, or the text of the
/// parse error.
pub uninterp spec fn url_parse_result(s: Seq<char>) -> Result<UrlView, Seq<char>>;

/// Parses `s` with `str::parse::<url::Url>` and reads its scheme and host
/// (`Url::scheme`, `Url::host`); a parse error is turned into its text.
/// Claimed: the result is the named result of parsing `s`.
#[verifier::external_body]
fn parse_url(s: &str) -> (res: Result<ParsedUrl, String>)
    ensures
        match res {
            Ok(u) => url_parse_result(s@) == Ok::<UrlView, Seq<char>>(u@),
            Err(e) => url_parse_result(s@) == Err::<UrlView, Seq<char>>(e@),
        },
{
    match s.parse::<url::Url>() {
        Ok(u) => Ok(ParsedUrl {
            scheme: u.scheme().to_string(),
            host: match u.host() {
                None => None,
                Some(url::Host::Ipv4(_)) => Some(UrlHost::Ipv4),
                Some(url::Host::Ipv6(_)) => Some(UrlHost::Ipv6),
                Some(url::Host::Domain(d)) => Some(UrlHost::Domain(d.to_string())),
            },
        }),
        Err(e) => Err(e.to_string()),
    }
}

/// Resolves `domain` with `dns_lookup::lookup_host` and tells, for each
/// address found, whether it is an IPv6 address; a lookup error is turned
/// into its text. Nothing is claimed: the answer depends on the name
/// servers at the time of the call.
#[verifier::external_body]
fn lookup_host(domain: &str) -> Result<Vec<bool>, String> {
    match dns_lookup::lookup_host(domain) {
        Ok(ips) => Ok(ips.iter().map(|ip| ip.is_ipv6()).collect()),
        Err(e) => Err(e.to_string()),
    }
}

pub open spec fn no_ipv6_message() -> Seq<char> {
    "No IPv6 address found, IPv4 address is not acceptable in Internet Computer"@
}

/// What a domain's addresses say: acceptable if one of them is IPv6.
pub open spec fn ipv6_verdict_spec(lookup: Result<Seq<bool>, Seq<char>>) -> Result<(), Seq<char>> {
    match lookup {
        Err(e) => Err(e),
        Ok(ips) => if ips.contains(true) { Ok(()) } else { Err(no_ipv6_message()) },
    }
}

pub open spec fn lookup_view(l: Result<Vec<bool>, String>) -> Result<Seq<bool>, Seq<char>> {
    match l {
        Ok(v) => Ok(v@),
        Err(e) => Err(e@),
    }
}

pub open spec fn unit_view(r: Result<(), String>) -> Result<(), Seq<char>> {
    match r {
        Ok(()) => Ok(()),
        Err(e) => Err(e@),
    }
}

/// Decides on a domain from the outcome of its lookup.
pub fn ipv6_verdict(lookup: Result<Vec<bool>, String>) -> (res: Result<(), String>)
    ensures
        unit_view(res) == ipv6_verdict_spec(lookup_view(lookup)),
{
    match lookup {
        Err(e) => Err(e),
        Ok(ips) => {
            let mut found = false;
            let mut i: usize = 0;
            while i < ips.len()
                invariant
                    i <= ips@.len(),
                    found <==> exists|k: int| 0 <= k < i && ips@[k],
                decreases ips@.len() - i,
            {
                if ips[i] {
                    found = true;
                }
                i = i + 1;
            }
            assert(found <==> ips@.contains(true));
            if found {
                Ok(())
            } else {
                Err(String::from_str("No IPv6 address found, IPv4 address is not acceptable in Internet Computer"))
            }
        },
    }
}

/// Whether a domain can be reached over IPv6: one of the addresses it
/// resolves to must be an IPv6 address. The answer depends on the name
/// servers; whatever they answer, it is the verdict on that answer.
pub fn is_ipv6_supported_domain(domain: &str) -> (res: Result<(), String>)
    ensures
        exists|lookup: Result<Seq<bool>, Seq<char>>| unit_view(res) == ipv6_verdict_spec(lookup),
{
    let lookup = lookup_host(domain);
    let ghost l = lookup_view(lookup);
    let res = ipv6_verdict(lookup);
    assert(unit_view(res) == ipv6_verdict_spec(l));
    res
}

/// What the endpoint rules answer on a URL without looking anything up: the parse
/// error, a refusal, acceptance (`Ok(None)`), or the domain whose addresses
/// decide (`Ok(Some(domain))`).
pub open spec fn url_precheck_spec(s: Seq<char>) -> Result<Option<Seq<char>>, Seq<char>> {
    match url_parse_result(s) {
        Err(e) => Err(e),
        Ok(u) => if u.scheme != "https"@ {
            Err("Only HTTPS is acceptable for RPC URL, but got: "@ + u.scheme)
        } else {
            match u.host {
                None => Err("No host in RPC URL"@),
                Some(HostView::Ipv4) => Err("IPv4 address is not acceptable in Internet Computer"@),
                Some(HostView::Ipv6) => Ok(None),
                Some(HostView::Domain(d)) => Ok(Some(d)),
            }
        },
    }
}

pub open spec fn precheck_view(r: Result<Option<String>, String>) -> Result<Option<Seq<char>>, Seq<char>> {
    match r {
        Ok(Some(d)) => Ok(Some(d@)),
        Ok(None) => Ok(None),
        Err(e) => Err(e@),
    }
}

/// Checks a URL as far as it can be checked without a lookup.
pub fn precheck_url(url_str: &str) -> (res: Result<Option<String>, String>)
    ensures
        precheck_view(res) == url_precheck_spec(url_str@),
{
    let url = parse_url(url_str)?;
    if !crate::text::text_eq(url.scheme.as_str(), "https") {
        let mut msg = String::from_str("Only HTTPS is acceptable for RPC URL, but got: ");
        msg.append(url.scheme.as_str());
        return Err(msg);
    }
    match url.host {
        None => Err(String::from_str("No host in RPC URL")),
        Some(UrlHost::Ipv4) => Err(String::from_str("IPv4 address is not acceptable in Internet Computer")),
        Some(UrlHost::Ipv6) => Ok(None),
        Some(UrlHost::Domain(d)) => Ok(Some(d)),
    }
}

/// Whether an RPC URL can be called from the Internet Computer: it must be
/// HTTPS and its host an IPv6 address or a domain with an IPv6 address.
pub fn is_supporting_ipv6_url(url_str: &str) -> (res: Result<(), String>)
    ensures
        match url_precheck_spec(url_str@) {
            Err(e) => res matches Err(r) && r@ == e,
            Ok(None) => res is Ok,
            Ok(Some(domain)) => exists|lookup: Result<Seq<bool>, Seq<char>>| unit_view(res) == ipv6_verdict_spec(lookup),
        },
{
    match precheck_url(url_str)? {
        None => Ok(()),
        Some(domain) => is_ipv6_supported_domain(domain.as_str()),
    }
}

} // verus!
