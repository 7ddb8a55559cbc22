//! The dfx networks the tool talks to, the dfx version it parses, and the
//! dfx command lines it runs.

use vstd::prelude::*;
use crate::text::{decimal, digit_char, lemma_decimal_digits, lemma_split_char_absent, lemma_split_char_concat, push_decimal, push_char, split_char, split_at_char, replace_all, replace_str, views};

verus! {

/// A network that dfx can target.
#[derive(Clone, Copy, Debug)]
pub enum DfxWrapperNetwork {
    IC,
    Local(Option<u16>),
}

/// What `value` gives for a network: the mainnet URL, the local replica's
/// URL when a port is known, and `local` otherwise.
pub open spec fn network_value_spec(n: DfxWrapperNetwork) -> Seq<char> {
    match n {
        DfxWrapperNetwork::IC => "https://ic0.app/"@,
        DfxWrapperNetwork::Local(Some(port)) => "http://localhost:"@ + decimal(port as nat),
        DfxWrapperNetwork::Local(None) => "local"@,
    }
}

/// The value of the `--network` flag: `ic` on mainnet, else `value`.
pub open spec fn network_flag_spec(n: DfxWrapperNetwork) -> Seq<char> {
    match n {
        DfxWrapperNetwork::IC => "ic"@,
        _ => network_value_spec(n),
    }
}

/// The character that stands for `c` in a path: `:`, `.` and `/` become `_`.
pub open spec fn path_char(c: char) -> char {
    if c == ':' || c == '.' || c == '/' { '_' } else { c }
}

/// The directory name under which a network's state is kept.
pub open spec fn network_path_spec(n: DfxWrapperNetwork) -> Seq<char> {
    match n {
        DfxWrapperNetwork::IC => "ic"@,
        DfxWrapperNetwork::Local(_) => network_value_spec(n).map_values(|c: char| path_char(c)),
    }
}

impl Default for DfxWrapperNetwork {
    fn default() -> (n: Self)
        ensures
            n == DfxWrapperNetwork::IC,
    {
        DfxWrapperNetwork::IC
    }
}

impl DfxWrapperNetwork {
    pub fn value(&self) -> (res: String)
        ensures
            res@ == network_value_spec(*self),
    {
        match self {
            DfxWrapperNetwork::IC => String::from_str("https://ic0.app/"),
            DfxWrapperNetwork::Local(port) => {
                match port {
                    Some(p) => {
                        let mut res = String::from_str("http://localhost:");
                        push_decimal(&mut res, *p as u128);
                        res
                    },
                    None => String::from_str("local"),
                }
            },
        }
    }

    pub fn args(&self) -> (res: Vec<String>)
        ensures
            views(res@) == seq!["--network"@, network_flag_spec(*self)],
    {
        let value = match self {
            DfxWrapperNetwork::IC => String::from_str("ic"),
            _ => self.value(),
        };
        let mut res = Vec::new();
        res.push(String::from_str("--network"));
        res.push(value);
        assert(views(res@) =~= seq!["--network"@, network_flag_spec(*self)]);
        res
    }

    pub fn to_path(&self) -> (res: String)
        ensures
            res@ == network_path_spec(*self),
    {
        match self {
            DfxWrapperNetwork::IC => String::from_str("ic"),
            DfxWrapperNetwork::Local(_) => {
                let value = self.value();
                let v = value.as_str();
                let n = v.unicode_len();
                let mut res = String::new();
                let mut i: usize = 0;
                while i < n
                    invariant
                        n == v@.len(),
                        i <= n,
                        res@ =~= v@.take(i as int).map_values(|c: char| path_char(c)),
                    decreases n - i,
                {
                    let c = v.get_char(i);
                    let d = if c == ':' || c == '.' || c == '/' { '_' } else { c };
                    push_char(&mut res, d);
                    assert(v@.take(i + 1) =~= v@.take(i as int).push(c));
                    i = i + 1;
                }
                assert(v@.take(n as int) =~= v@);
                res
            },
        }
    }
}

/// A network's directory name never holds `:`, `.` or `/`.
pub proof fn lemma_network_path_is_flat(n: DfxWrapperNetwork, i: int)
    requires
        0 <= i < network_path_spec(n).len(),
    ensures
        network_path_spec(n)[i] != ':',
        network_path_spec(n)[i] != '.',
        network_path_spec(n)[i] != '/',
{
    reveal_strlit("ic");
}


/// Whether `c` is an ASCII decimal digit.
pub open spec fn is_digit(c: char) -> bool {
    '0' <= c && c <= '9'
}

/// The number written by a string of decimal digits.
pub open spec fn digits_value(s: Seq<char>) -> nat
    decreases s.len(),
{
    if s.len() == 0 {
        0
    } else {
        digits_value(s.drop_last()) * 10 + ((s.last() as nat) - ('0' as nat)) as nat
    }
}

/// The digits of an unsigned number as `str::parse` reads them: an optional
/// `+` sign, then at least one decimal digit.
pub open spec fn unsigned_digits(s: Seq<char>) -> Seq<char> {
    if s.len() > 0 && s[0] == '+' { s.skip(1) } else { s }
}

/// What `u32::from_str` gives: `None` where it fails.
pub open spec fn parse_u32_spec(s: Seq<char>) -> Option<u32> {
    let d = unsigned_digits(s);
    if d.len() > 0 && (forall|i: int| 0 <= i < d.len() ==> is_digit(#[trigger] d[i]))
        && digits_value(d) <= u32::MAX {
        Some(digits_value(d) as u32)
    } else {
        None
    }
}

proof fn lemma_digits_value_prefix(s: Seq<char>, i: int)
    requires
        0 <= i <= s.len(),
        forall|k: int| 0 <= k < s.len() ==> is_digit(#[trigger] s[k]),
    ensures
        digits_value(s.take(i)) <= digits_value(s),
    decreases s.len(),
{
    if i < s.len() {
        assert(s.drop_last().take(i) =~= s.take(i));
        lemma_digits_value_prefix(s.drop_last(), i);
    } else {
        assert(s.take(i) =~= s);
    }
}

/// Reads an unsigned 32-bit number as `u32::from_str` does.
pub fn parse_u32(s: &str) -> (res: Option<u32>)
    ensures
        res == parse_u32_spec(s@),
{
    let n = s.unicode_len();
    let start: usize = if n > 0 && s.get_char(0) == '+' { 1 } else { 0 };
    let ghost d = unsigned_digits(s@);
    assert(d =~= s@.skip(start as int));
    if start >= n {
        return None;
    }
    let mut acc: u64 = 0;
    let mut i: usize = start;
    while i < n
        invariant
            n == s@.len(),
            start <= i <= n,
            d == s@.skip(start as int),
            d == unsigned_digits(s@),
            forall|k: int| 0 <= k < i - start ==> is_digit(#[trigger] d[k]),
            acc == digits_value(d.take(i - start)),
            acc <= u32::MAX,
        decreases n - i,
    {
        let c = s.get_char(i);
        assert(d[i - start] == c);
        if !('0' <= c && c <= '9') {
            assert(!is_digit(d[i - start]));
            return None;
        }
        let v = (c as u64) - ('0' as u64);
        assert(d.take(i - start + 1).drop_last() =~= d.take(i - start));
        assert(d.take(i - start + 1).last() == c);
        acc = acc * 10 + v;
        if acc > 0xffff_ffffu64 {
            proof {
                if forall|k: int| 0 <= k < d.len() ==> is_digit(#[trigger] d[k]) {
                    lemma_digits_value_prefix(d, i - start + 1);
                }
            }
            return None;
        }
        i = i + 1;
    }
    assert(d.take(n - start) =~= d);
    Some(acc as u32)
}


/// A dfx release number: `major.minor.patch`, with an optional pre-release
/// tag after a `-`.
#[derive(Debug, PartialEq, Eq, PartialOrd, Ord)]
pub struct Version {
    pub major: u32,
    pub minor: u32,
    pub patch: u32,
    pub pre_release: Option<String>,
}

/// The view of a version: its numbers and the text of its pre-release tag.
pub struct VersionView {
    pub major: u32,
    pub minor: u32,
    pub patch: u32,
    pub pre_release: Option<Seq<char>>,
}

impl View for Version {
    type V = VersionView;

    open spec fn view(&self) -> VersionView {
        VersionView {
            major: self.major,
            minor: self.minor,
            patch: self.patch,
            pre_release: match self.pre_release {
                Some(p) => Some(p@),
                None => None,
            },
        }
    }
}

/// What parsing a version string gives: the part before the first `-` must be
/// three `.`-separated unsigned numbers; the part between the first and the
/// second `-`, if any, is the pre-release tag.
pub open spec fn parse_version_spec(v: Seq<char>) -> Result<VersionView, Seq<char>> {
    let parts = split_char(v, '-');
    let nums = split_char(parts[0], '.');
    if nums.len() != 3 {
        Err("Invalid version string"@)
    } else if parse_u32_spec(nums[0]) is None {
        Err("Invalid major version"@)
    } else if parse_u32_spec(nums[1]) is None {
        Err("Invalid minor version"@)
    } else if parse_u32_spec(nums[2]) is None {
        Err("Invalid patch version"@)
    } else {
        Ok(VersionView {
            major: parse_u32_spec(nums[0]).unwrap(),
            minor: parse_u32_spec(nums[1]).unwrap(),
            patch: parse_u32_spec(nums[2]).unwrap(),
            pre_release: if parts.len() > 1 { Some(parts[1]) } else { None },
        })
    }
}

/// The text of a version: `major.minor.patch`, then `-tag` if it has one.
pub open spec fn version_text(v: VersionView) -> Seq<char> {
    let base = decimal(v.major as nat) + "."@ + decimal(v.minor as nat) + "."@ + decimal(v.patch as nat);
    match v.pre_release {
        Some(p) => base + "-"@ + p,
        None => base,
    }
}

impl Version {
    /// Reads a version string such as `0.20.1` or `0.21.0-beta.1`.
    pub fn parse(version: &str) -> (res: Result<Version, &'static str>)
        ensures
            match res {
                Ok(v) => parse_version_spec(version@) == Ok::<VersionView, Seq<char>>(v@),
                Err(e) => parse_version_spec(version@) == Err::<VersionView, Seq<char>>(e@),
            },
    {
        proof {
            crate::text::lemma_split_char_nonempty(version@, '-');
        }
        let parts = split_at_char(version, '-');
        let nums = split_at_char(parts[0].as_str(), '.');
        assert(views(parts@)[0] == parts@[0]@);
        if nums.len() != 3 {
            return Err("Invalid version string");
        }
        assert(views(nums@)[0] == nums@[0]@);
        assert(views(nums@)[1] == nums@[1]@);
        assert(views(nums@)[2] == nums@[2]@);
        let major = match parse_u32(nums[0].as_str()) {
            Some(x) => x,
            None => { return Err("Invalid major version"); },
        };
        let minor = match parse_u32(nums[1].as_str()) {
            Some(x) => x,
            None => { return Err("Invalid minor version"); },
        };
        let patch = match parse_u32(nums[2].as_str()) {
            Some(x) => x,
            None => { return Err("Invalid patch version"); },
        };
        let pre_release = if parts.len() > 1 {
            assert(views(parts@)[1] == parts@[1]@);
            Some(parts[1].clone())
        } else {
            None
        };
        Ok(Version { major, minor, patch, pre_release })
    }

    /// The text of the version, as it is displayed.
    pub fn to_string(&self) -> (res: String)
        ensures
            res@ == version_text(self@),
    {
        let mut res = String::new();
        push_decimal(&mut res, self.major as u128);
        res.append(".");
        push_decimal(&mut res, self.minor as u128);
        res.append(".");
        push_decimal(&mut res, self.patch as u128);
        match &self.pre_release {
            Some(p) => {
                res.append("-");
                res.append(p.as_str());
            },
            None => {},
        }
        res
    }
}

impl std::str::FromStr for Version {
    type Err = &'static str;

    fn from_str(version: &str) -> (res: Result<Version, &'static str>)
        ensures
            match res {
                Ok(v) => parse_version_spec(version@) == Ok::<VersionView, Seq<char>>(v@),
                Err(e) => parse_version_spec(version@) == Err::<VersionView, Seq<char>>(e@),
            },
    {
        Version::parse(version)
    }
}

/// Whether `c` ends a line.
pub open spec fn is_newline(c: char) -> bool {
    c == '\n' || c == '\r'
}

/// `s` without the line breaks at its end.
pub open spec fn without_trailing_newline(s: Seq<char>) -> Seq<char>
    decreases s.len(),
{
    if s.len() > 0 && is_newline(s.last()) {
        without_trailing_newline(s.drop_last())
    } else {
        s
    }
}

/// Strips the line breaks that end a command's output.
pub fn remove_trailing_newline(s: String) -> (res: String)
    ensures
        res@ == without_trailing_newline(s@),
{
    let v = s.as_str();
    let mut end = v.unicode_len();
    assert(v@.take(end as int) =~= v@);
    while end > 0 && (v.get_char(end - 1) == '\n' || v.get_char(end - 1) == '\r')
        invariant
            end <= v@.len(),
            without_trailing_newline(v@.take(end as int)) == without_trailing_newline(v@),
        decreases end,
    {
        assert(v@.take(end as int).drop_last() =~= v@.take(end - 1));
        end = end - 1;
    }
    assert(without_trailing_newline(v@.take(end as int)) == v@.take(end as int));
    String::from_str(v.substring_char(0, end))
}


/// A dfx invocation: the directory to run it in and its arguments. The
/// program is always `dfx`.
#[derive(Debug)]
pub struct DfxCommand {
    pub dir: String,
    pub args: Vec<String>,
}

impl DfxCommand {
    /// What the tool keeps of a finished invocation: its standard output
    /// without the final line breaks, or the error text unchanged.
    pub fn finish(output: Result<String, String>) -> (res: Result<String, String>)
        ensures
            match output {
                Ok(o) => res matches Ok(r) && r@ == without_trailing_newline(o@),
                Err(e) => res matches Err(r) && r@ == e@,
            },
    {
        match output {
            Ok(o) => Ok(remove_trailing_newline(o)),
            Err(e) => Err(e),
        }
    }
}

/// A handle on dfx for one project directory and one network.
#[derive(Debug)]
pub struct DfxWrapper {
    pub execution_dir_str: Option<String>,
    pub network: DfxWrapperNetwork,
}

/// The directory a wrapper runs dfx in: the project's, or the current one.
pub open spec fn execution_dir_spec(dir: Option<String>) -> Seq<char> {
    match dir {
        Some(d) => d@,
        None => "."@,
    }
}

/// The version string inside the output of `dfx --version`.
pub open spec fn version_output_text(out: Seq<char>) -> Seq<char> {
    replace_all(without_trailing_newline(out), "dfx "@, Seq::<char>::empty())
}

/// What the outcome of `dfx --version` tells: the parsed version, or the
/// error of the command or of the parse.
pub open spec fn version_from_output_spec(output: Result<Seq<char>, Seq<char>>) -> Result<VersionView, Seq<char>> {
    match output {
        Err(e) => Err(e),
        Ok(o) => parse_version_spec(version_output_text(o)),
    }
}

pub open spec fn result_view(r: Result<String, String>) -> Result<Seq<char>, Seq<char>> {
    match r {
        Ok(o) => Ok(o@),
        Err(e) => Err(e@),
    }
}

impl DfxWrapper {
    /// Sets up a wrapper once dfx has answered `dfx --version`
    /// (see `version_command`) with `version_output`.
    pub fn new(network: DfxWrapperNetwork, path: Option<String>, version_output: Result<String, String>)
        -> (res: Result<(DfxWrapper, Version), String>)
        ensures
            match res {
                Ok((w, v)) => {
                    &&& version_from_output_spec(result_view(version_output)) == Ok::<VersionView, Seq<char>>(v@)
                    &&& w.execution_dir_str == path
                    &&& w.network == network
                },
                Err(e) => version_from_output_spec(result_view(version_output)) == Err::<VersionView, Seq<char>>(e@),
            },
    {
        let version = Self::version(version_output)?;
        Ok((DfxWrapper { execution_dir_str: path, network }, version))
    }

    /// The invocation that asks dfx for its version.
    pub fn version_command() -> (c: DfxCommand)
        ensures
            c.dir@ == "."@,
            views(c.args@) == seq!["--version"@],
    {
        let mut args = Vec::new();
        args.push(String::from_str("--version"));
        assert(views(args@) =~= seq!["--version"@]);
        DfxCommand { dir: String::from_str("."), args }
    }

    /// Reads the version out of the outcome of `dfx --version`.
    pub fn version(output: Result<String, String>) -> (res: Result<Version, String>)
        ensures
            match res {
                Ok(v) => version_from_output_spec(result_view(output)) == Ok::<VersionView, Seq<char>>(v@),
                Err(e) => version_from_output_spec(result_view(output)) == Err::<VersionView, Seq<char>>(e@),
            },
    {
        match output {
            Err(e) => Err(e),
            Ok(o) => {
                let trimmed = remove_trailing_newline(o);
                proof { reveal_strlit("dfx "); }
                let text = replace_str(trimmed.as_str(), "dfx ", "");
                proof { reveal_strlit(""); }
                assert(""@ =~= Seq::<char>::empty());
                match Version::parse(text.as_str()) {
                    Ok(v) => Ok(v),
                    Err(e) => Err(String::from_str(e)),
                }
            },
        }
    }

    pub fn execution_dir(&self) -> (res: String)
        ensures
            res@ == execution_dir_spec(self.execution_dir_str),
    {
        match &self.execution_dir_str {
            Some(d) => d.clone(),
            None => String::from_str("."),
        }
    }

    /// `command` followed by the network flag.
    pub fn args(&self, command: Vec<String>) -> (res: Vec<String>)
        ensures
            views(res@) == views(command@) + seq!["--network"@, network_flag_spec(self.network)],
    {
        let mut res = command;
        let mut net = self.network.args();
        let ghost before = res@;
        res.append(&mut net);
        assert(views(res@) =~= views(before) + seq!["--network"@, network_flag_spec(self.network)]);
        res
    }

    /// `dfx ping <network>` in the project directory.
    pub fn ping(&self) -> (c: DfxCommand)
        ensures
            c.dir@ == execution_dir_spec(self.execution_dir_str),
            views(c.args@) == seq!["ping"@, network_value_spec(self.network)],
    {
        let mut args = Vec::new();
        args.push(String::from_str("ping"));
        args.push(self.network.value());
        assert(views(args@) =~= seq!["ping"@, network_value_spec(self.network)]);
        DfxCommand { dir: self.execution_dir(), args }
    }

    /// `dfx identity whoami` in the project directory.
    pub fn identity_whoami(&self) -> (c: DfxCommand)
        ensures
            c.dir@ == execution_dir_spec(self.execution_dir_str),
            views(c.args@) == seq!["identity"@, "whoami"@],
    {
        let mut args = Vec::new();
        args.push(String::from_str("identity"));
        args.push(String::from_str("whoami"));
        assert(views(args@) =~= seq!["identity"@, "whoami"@]);
        DfxCommand { dir: self.execution_dir(), args }
    }

    /// `dfx identity get-principal --network <network>`.
    pub fn identity_get_principal(&self) -> (c: DfxCommand)
        ensures
            c.dir@ == execution_dir_spec(self.execution_dir_str),
            views(c.args@) == seq!["identity"@, "get-principal"@, "--network"@, network_flag_spec(self.network)],
    {
        let mut command = Vec::new();
        command.push(String::from_str("identity"));
        command.push(String::from_str("get-principal"));
        let args = self.args(command);
        assert(views(args@) =~= seq!["identity"@, "get-principal"@, "--network"@, network_flag_spec(self.network)]);
        DfxCommand { dir: self.execution_dir(), args }
    }

    /// `dfx identity get-wallet --network <network>`.
    pub fn identity_get_wallet(&self) -> (c: DfxCommand)
        ensures
            c.dir@ == execution_dir_spec(self.execution_dir_str),
            views(c.args@) == seq!["identity"@, "get-wallet"@, "--network"@, network_flag_spec(self.network)],
    {
        let mut command = Vec::new();
        command.push(String::from_str("identity"));
        command.push(String::from_str("get-wallet"));
        let args = self.args(command);
        assert(views(args@) =~= seq!["identity"@, "get-wallet"@, "--network"@, network_flag_spec(self.network)]);
        DfxCommand { dir: self.execution_dir(), args }
    }
}


proof fn lemma_digit_value(d: nat)
    requires
        d < 10,
    ensures
        (digit_char(d) as nat) - ('0' as nat) == d,
        is_digit(digit_char(d)),
{
}

/// Reading decimal notation back gives the number.
pub proof fn lemma_digits_value_decimal(n: nat)
    ensures
        digits_value(decimal(n)) == n,
    decreases n,
{
    lemma_digit_value(n % 10);
    let d = decimal(n);
    if n < 10 {
        assert(d.drop_last() =~= Seq::<char>::empty());
        assert(d.last() == digit_char(n));
        assert(digits_value(d) == digits_value(d.drop_last()) * 10 + ((d.last() as nat) - ('0' as nat)) as nat);
    } else {
        lemma_digits_value_decimal(n / 10);
        assert(d == decimal(n / 10).push(digit_char(n % 10)));
        assert(d.drop_last() =~= decimal(n / 10));
        assert(d.last() == digit_char(n % 10));
        assert(digits_value(d) == digits_value(d.drop_last()) * 10 + ((d.last() as nat) - ('0' as nat)) as nat);
        assert((n / 10) * 10 + n % 10 == n);
    }
}

/// `u32::from_str` reads back what `to_string` printed.
pub proof fn lemma_parse_u32_decimal(n: u32)
    ensures
        parse_u32_spec(decimal(n as nat)) == Some(n),
{
    let d = decimal(n as nat);
    lemma_decimal_digits(n as nat);
    lemma_digits_value_decimal(n as nat);
    assert(d[0] != '+');
    assert(unsigned_digits(d) == d);
    assert forall|i: int| 0 <= i < d.len() implies is_digit(#[trigger] d[i]) by {
        assert('0' <= d[i] <= '9');
    }
}

proof fn lemma_decimal_lacks(n: nat, c: char)
    requires
        !('0' <= c <= '9'),
    ensures
        !decimal(n).contains(c),
{
    lemma_decimal_digits(n);
    if decimal(n).contains(c) {
        let k = choose|k: int| 0 <= k < decimal(n).len() && decimal(n)[k] == c;
        assert('0' <= decimal(n)[k] <= '9');
    }
}

/// Printing a version and parsing the text gives the version back, when its
/// pre-release tag holds no `-` (the parser keeps only the text up to the
/// next `-` as the tag).
pub proof fn law_version_text_parses_back(v: VersionView)
    requires
        v.pre_release matches Some(p) ==> !p.contains('-'),
    ensures
        parse_version_spec(version_text(v)) == Ok::<VersionView, Seq<char>>(v),
{
    reveal_strlit(".");
    reveal_strlit("-");
    let a = decimal(v.major as nat);
    let b = decimal(v.minor as nat);
    let c = decimal(v.patch as nat);
    lemma_decimal_lacks(v.major as nat, '.');
    lemma_decimal_lacks(v.minor as nat, '.');
    lemma_decimal_lacks(v.patch as nat, '.');
    lemma_decimal_lacks(v.major as nat, '-');
    lemma_decimal_lacks(v.minor as nat, '-');
    lemma_decimal_lacks(v.patch as nat, '-');
    let base = a + seq!['.'] + (b + seq!['.'] + c);
    assert(base =~= a + "."@ + b + "."@ + c);
    // the numbers
    lemma_split_char_absent(a, '.');
    lemma_split_char_absent(b, '.');
    lemma_split_char_absent(c, '.');
    lemma_split_char_concat(b, '.', c);
    lemma_split_char_concat(a, '.', b + seq!['.'] + c);
    let nums = split_char(base, '.');
    assert(nums =~= seq![a, b, c]);
    lemma_parse_u32_decimal(v.major);
    lemma_parse_u32_decimal(v.minor);
    lemma_parse_u32_decimal(v.patch);
    // the tag
    assert(!base.contains('-')) by {
        if base.contains('-') {
            let k = choose|k: int| 0 <= k < base.len() && base[k] == '-';
            if k < a.len() {
                assert(a[k] == '-');
            } else if k == a.len() {
            } else if k < a.len() + 1 + b.len() {
                assert(b[k - a.len() - 1] == '-');
            } else if k == a.len() + 1 + b.len() {
            } else {
                assert(c[k - a.len() - 2 - b.len()] == '-');
            }
        }
    }
    lemma_split_char_absent(base, '-');
    match v.pre_release {
        Some(p) => {
            lemma_split_char_absent(p, '-');
            lemma_split_char_concat(base, '-', p);
            assert(version_text(v) =~= base + seq!['-'] + p);
            assert(split_char(version_text(v), '-') =~= seq![base, p]);
        },
        None => {
            assert(version_text(v) =~= base);
        },
    }
}

} // verus!
