//! The dfx identity configuration that the tool reads: where dfx keeps an
//! identity's files and key, and which wallet an identity uses on mainnet.

use vstd::prelude::*;
use candid::Principal;
use crate::dfx::DfxWrapperNetwork;
use crate::types::Network;
use crate::text::text_eq;

verus! {

/// The configuration of one dfx identity: the suffix of its keyring entry,
/// if its key is kept in the keyring.
#[derive(Clone, Debug, Default)]
pub struct IdentityConfiguration {
    pub keyring_identity_suffix: Option<String>,
}

/// The wallet canister of an identity on each network, by network name.
pub struct WalletNetworkMap {
    pub networks: Vec<(String, Principal)>,
}

/// The wallets of every identity, by identity name.
pub struct WalletGlobalConfig {
    pub identities: Vec<(String, WalletNetworkMap)>,
}

/// Where dfx keeps its configuration, under the home directory.
pub const DFX_CONFIG_ROOT_PATH: &'static str = ".config/dfx";
pub const IDENTITY_JSON: &'static str = "identity.json";
pub const IDENTITY_PEM: &'static str = "identity.pem";
pub const WALLET_CONFIG_FILENAME: &'static str = "wallets.json";
/// The keyring service under which dfx keeps identity keys.
pub const KEYRING_SERVICE_NAME: &'static str = "internet_computer_identities";
/// The prefix of the keyring entry of an identity.
pub const KEYRING_IDENTITY_PREFIX: &'static str = "internet_computer_identity_";

/// The path, under the home directory, of the file that names the default
/// identity.
pub open spec fn default_identity_path_spec() -> Seq<char> {
    "~/.config/dfx/identity.json"@
}

/// The path, under the home directory, of a file of an identity.
pub open spec fn identity_file_path_spec(context: Seq<char>, file: Seq<char>) -> Seq<char> {
    "~/.config/dfx/identity/"@ + context + "/"@ + file
}

pub fn default_identity_path() -> (res: String)
    ensures
        res@ == default_identity_path_spec(),
{
    let mut res = String::from_str("~/");
    res.append(DFX_CONFIG_ROOT_PATH);
    res.append("/");
    res.append(IDENTITY_JSON);
    proof {
        reveal_strlit("~/");
        reveal_strlit("/");
        reveal_strlit(".config/dfx");
        reveal_strlit("identity.json");
        reveal_strlit("~/.config/dfx/identity.json");
    }
    assert(res@ =~= default_identity_path_spec());
    res
}

/// The path of a file of an identity: its configuration, its key or its
/// wallets.
pub fn identity_file_path(context: &str, file: &str) -> (res: String)
    ensures
        res@ == identity_file_path_spec(context@, file@),
{
    let mut res = String::from_str("~/");
    res.append(DFX_CONFIG_ROOT_PATH);
    res.append("/identity/");
    res.append(context);
    res.append("/");
    res.append(file);
    proof {
        reveal_strlit("~/");
        reveal_strlit("/identity/");
        reveal_strlit(".config/dfx");
        reveal_strlit("~/.config/dfx/identity/");
    }
    assert(res@ =~= identity_file_path_spec(context@, file@));
    res
}

/// Where an identity's key is read from.
pub enum KeyLocation {
    /// An entry of the keyring: the service and the entry's name.
    Keyring { service: String, entry: String },
    /// A PEM file, by its path under the home directory.
    PemFile(String),
}

/// The key of an identity: in the keyring where its configuration names a
/// keyring entry, else in the identity's PEM file.
pub fn identity_key_location(context_name: &str, config: &IdentityConfiguration) -> (res: KeyLocation)
    ensures
        match config.keyring_identity_suffix {
            Some(suffix) => res matches KeyLocation::Keyring { service, entry }
                && service@ == "internet_computer_identities"@
                && entry@ == "internet_computer_identity_"@ + suffix@,
            None => res matches KeyLocation::PemFile(p) && p@ == identity_file_path_spec(context_name@, "identity.pem"@),
        },
{
    match &config.keyring_identity_suffix {
        Some(suffix) => {
            let mut entry = String::from_str(KEYRING_IDENTITY_PREFIX);
            entry.append(suffix.as_str());
            proof { reveal_strlit("internet_computer_identity_"); }
            KeyLocation::Keyring { service: String::from_str(KEYRING_SERVICE_NAME), entry }
        },
        None => {
            proof { reveal_strlit("identity.pem"); }
            KeyLocation::PemFile(identity_file_path(context_name, IDENTITY_PEM))
        },
    }
}

/// Where the wallet of an identity is looked up.
pub enum WalletSource {
    /// The identity's `wallets.json`, for mainnet.
    WalletsJson(String),
    /// `dfx identity get-wallet` on the given network.
    Dfx(DfxWrapperNetwork),
}

/// Where to find the wallet: on mainnet with a named identity, in that
/// identity's wallets file; otherwise by asking dfx on the network (the
/// local replica at `port`, or mainnet).
pub fn wallet_source(network: &Network, port: Option<u16>, identity_context: &Option<String>) -> (res: WalletSource)
    ensures
        match (network, identity_context) {
            (Network::IC, Some(c)) => res matches WalletSource::WalletsJson(p) && p@ == identity_file_path_spec(c@, "wallets.json"@),
            (Network::Local, _) => res == WalletSource::Dfx(DfxWrapperNetwork::Local(port)),
            (Network::IC, None) => res == WalletSource::Dfx(DfxWrapperNetwork::IC),
        },
{
    match (network, identity_context) {
        (Network::IC, Some(c)) => {
            proof { reveal_strlit("wallets.json"); }
            WalletSource::WalletsJson(identity_file_path(c.as_str(), WALLET_CONFIG_FILENAME))
        },
        (Network::Local, _) => WalletSource::Dfx(DfxWrapperNetwork::Local(port)),
        (Network::IC, None) => WalletSource::Dfx(DfxWrapperNetwork::IC),
    }
}

/// The first entry of a list under the given name.
pub open spec fn first_with_name<V>(s: Seq<(String, V)>, name: Seq<char>) -> Option<int>
    decreases s.len(),
{
    if s.len() == 0 {
        None
    } else if s[0].0@ == name {
        Some(0)
    } else {
        match first_with_name(s.skip(1), name) {
            Some(i) => Some(i + 1),
            None => None,
        }
    }
}

proof fn lemma_first_with_name<V>(s: Seq<(String, V)>, name: Seq<char>, i: int)
    requires
        0 <= i <= s.len(),
        forall|k: int| 0 <= k < i ==> (#[trigger] s[k]).0@ != name,
    ensures
        i < s.len() && s[i].0@ == name ==> first_with_name(s, name) == Some(i),
        i == s.len() ==> first_with_name(s, name) is None,
    decreases i,
{
    if i > 0 {
        assert forall|k: int| 0 <= k < i - 1 implies (#[trigger] s.skip(1)[k]).0@ != name by {
            assert(s.skip(1)[k] == s[k + 1]);
        }
        lemma_first_with_name(s.skip(1), name, i - 1);
    }
}

/// Where the first entry under `name` is, if any.
fn position_of<V>(s: &Vec<(String, V)>, name: &str) -> (res: Option<usize>)
    ensures
        match res {
            Some(i) => first_with_name(s@, name@) == Some(i as int) && i < s@.len(),
            None => first_with_name(s@, name@) is None,
        },
{
    let mut i: usize = 0;
    while i < s.len()
        invariant
            i <= s@.len(),
            forall|k: int| 0 <= k < i ==> (#[trigger] s@[k]).0@ != name@,
        decreases s@.len() - i,
    {
        if text_eq(s[i].0.as_str(), name) {
            proof { lemma_first_with_name(s@, name@, i as int); }
            return Some(i);
        }
        i = i + 1;
    }
    proof { lemma_first_with_name(s@, name@, i as int); }
    None
}

/// The mainnet wallet of an identity in a wallets file: the entry of the
/// identity, then its entry for network `ic`.
pub fn get_wallet_id_in_ic(config: &WalletGlobalConfig, identity_context: &str) -> (res: Result<Principal, String>)
    ensures
        match first_with_name(config.identities@, identity_context@) {
            None => res matches Err(e) && e@ == "No default identity found"@,
            Some(i) => {
                let nets = config.identities@[i].1.networks@;
                match first_with_name(nets, "ic"@) {
                    None => res matches Err(e) && e@ == "No ic network found"@,
                    Some(j) => res == Ok::<Principal, String>(nets[j].1),
                }
            },
        },
{
    match position_of(&config.identities, identity_context) {
        None => Err(String::from_str("No default identity found")),
        Some(i) => {
            let nets = &config.identities[i].1.networks;
            match position_of(nets, "ic") {
                None => Err(String::from_str("No ic network found")),
                Some(j) => Ok(nets[j].1),
            }
        },
    }
}

/// A path without the `~/` it starts with, however often it repeats
/// (`str::trim_start_matches("~/")`).
pub open spec fn trim_home_prefix(p: Seq<char>) -> Seq<char>
    decreases p.len(),
{
    if p.len() >= 2 && p[0] == '~' && p[1] == '/' { trim_home_prefix(p.skip(2)) } else { p }
}

/// What `Path::join` gives for a base and a path to adjoin.
pub uninterp spec fn path_joined(base: Seq<char>, rel: Seq<char>) -> Seq<char>;

/// Calls `Path::join` and reads the result back as text. Claimed: the named
/// result of the two texts (a path made of text reads back unchanged).
#[verifier::external_body]
pub(crate) fn join_path(base: &str, rel: &str) -> (res: String)
    ensures
        res@ == path_joined(base@, rel@),
{
    std::path::Path::new(base).join(rel).to_string_lossy().into_owned()
}

/// What a path under the home directory stands for: a path that starts
/// with `~` is put under the home directory, which must be known; any other
/// path stands for itself.
pub open spec fn path_to_home_spec(path: Seq<char>, home: Option<Seq<char>>) -> Option<Seq<char>> {
    if path.len() > 0 && path[0] == '~' {
        match home {
            Some(h) => Some(path_joined(h, trim_home_prefix(path))),
            None => None,
        }
    } else {
        Some(path)
    }
}

/// Puts a path that starts with `~` under the home directory `home`.
pub fn get_path_to_home(path: &str, home: Option<String>) -> (res: Option<String>)
    ensures
        match (res, path_to_home_spec(path@, match home { Some(h) => Some(h@), None => None })) {
            (Some(r), Some(v)) => r@ == v,
            (None, None) => true,
            _ => false,
        },
{
    let n = path.unicode_len();
    if n == 0 || path.get_char(0) != '~' {
        return Some(String::from_str(path));
    }
    let h = match home {
        Some(h) => h,
        None => { return None; },
    };
    let mut i: usize = 0;
    assert(path@.skip(0) =~= path@);
    while i < n - 1 && path.get_char(i) == '~' && path.get_char(i + 1) == '/'
        invariant
            n == path@.len(),
            n > 0,
            i <= n,
            trim_home_prefix(path@.skip(i as int)) == trim_home_prefix(path@),
        decreases n - i,
    {
        assert(path@.skip(i as int).skip(2) =~= path@.skip(i + 2));
        i = i + 2;
    }
    let rest = path.substring_char(i, n);
    assert(rest@ =~= path@.skip(i as int));
    assert(trim_home_prefix(rest@) == rest@);
    Some(join_path(h.as_str(), rest))
}

} // verus!
