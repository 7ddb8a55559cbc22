//! Contract method identifiers in ABI form, such as
//! `balanceOf(address):(uint256)`, and the Rust types of their parameters
//! and results.

use vstd::prelude::*;
use ethabi::ParamType as P;
use crate::text::{views, split_char, split_at_char};
use crate::method_identifier::{find_char, trim, trim_spec, lemma_find_char, lemma_find_char_found};

verus! {

/// An ABI parameter type, as far as the generators read it.
#[derive(Clone, Copy, Debug, PartialEq, Eq, Structural)]
pub enum AbiType {
    Address,
    Bytes,
    Int(usize),
    Uint(usize),
    Bool,
    String,
    Array,
    FixedBytes(usize),
    FixedArray,
    Tuple,
}

/// What `ethabi::param_type::Reader::read` gives for a type name: the type,
/// or the text of its error.
pub uninterp spec fn abi_type_of(name: Seq<char>) -> Result<AbiType, Seq<char>>;

/// Whether every character of `s` is ASCII.
pub open spec fn all_ascii(s: Seq<char>) -> bool {
    forall|i: int| 0 <= i < s.len() ==> (#[trigger] s[i] as u32) < 128
}

/// The digits of a number text: `s` without a leading `+`.
pub open spec fn unsigned_digits(s: Seq<char>) -> Seq<char> {
    if s.len() > 0 && s[0] == '+' { s.skip(1) } else { s }
}

/// Whether every character of `d` is a decimal digit.
pub open spec fn all_digits(d: Seq<char>) -> bool {
    forall|i: int| 0 <= i < d.len() ==> '0' <= #[trigger] d[i] && d[i] <= '9'
}

/// Whether `s` is a number that `usize::from_str` may accept: an optional
/// `+` and then at least one digit.
pub open spec fn number_text(s: Seq<char>) -> bool {
    unsigned_digits(s).len() > 0 && all_digits(unsigned_digits(s))
}

/// The last position of `c` in `s`, if any.
pub open spec fn find_last_char(s: Seq<char>, c: char) -> Option<int>
    decreases s.len(),
{
    if s.len() == 0 {
        None
    } else if s.last() == c {
        Some(s.len() - 1)
    } else {
        find_last_char(s.drop_last(), c)
    }
}

/// Whether `ethabi::param_type::Reader::read` returns on `name` rather than
/// panicking, as far as stated here. A name that ends with `)` (a tuple) is
/// left out. A name that ends with `]` (an array) must be ASCII, since the
/// reader slices it by character counts; its element count, the text between
/// the last `[` and the final `]`, must leave room for the element type where
/// it is a number, and the element type must be readable in turn. A `]`
/// without a `[` before it is read only where the text before it is no
/// number (a number there makes the reader's slice bound negative).
pub open spec fn abi_read_safe(name: Seq<char>) -> bool
    decreases name.len(),
{
    if name.len() == 0 {
        true
    } else if name.last() == ')' {
        false
    } else if name.last() != ']' {
        true
    } else if !all_ascii(name) {
        false
    } else {
        match find_last_char(name.drop_last(), '[') {
            None => name.len() >= 2 && !number_text(name.drop_last()),
            Some(k) => {
                let num = name.subrange(k + 1, name.len() - 1);
                if k < 0 || k >= name.len() - 1 {
                    false
                } else if num.len() == 0 || number_text(num) {
                    abi_read_safe(name.take(k))
                } else {
                    true
                }
            },
        }
    }
}

pub(crate) proof fn lemma_find_last_char_bounds(s: Seq<char>, c: char)
    ensures
        find_last_char(s, c) matches Some(k) ==> 0 <= k < s.len() && s[k] == c,
    decreases s.len(),
{
    if s.len() > 0 && s.last() != c {
        lemma_find_last_char_bounds(s.drop_last(), c);
    }
}

pub(crate) fn find_last_char_exec(s: &str, c: char) -> (res: Option<usize>)
    ensures
        match find_last_char(s@, c) {
            Some(k) => res == Some(k as usize),
            None => res is None,
        },
{
    let n = s.unicode_len();
    let mut i: usize = n;
    assert(s@.take(n as int) =~= s@);
    while i > 0 && s.get_char(i - 1) != c
        invariant
            n == s@.len(),
            i <= n,
            find_last_char(s@.take(i as int), c) == find_last_char(s@, c),
        decreases i,
    {
        assert(s@.take(i as int).drop_last() =~= s@.take(i - 1));
        i = i - 1;
    }
    if i == 0 {
        assert(s@.take(0) =~= Seq::<char>::empty());
        None
    } else {
        Some(i - 1)
    }
}

fn all_ascii_exec(s: &str) -> (r: bool)
    ensures
        r == all_ascii(s@),
{
    let n = s.unicode_len();
    let mut i: usize = 0;
    while i < n
        invariant
            n == s@.len(),
            i <= n,
            forall|k: int| 0 <= k < i ==> (#[trigger] s@[k] as u32) < 128,
        decreases n - i,
    {
        if (s.get_char(i) as u32) >= 128 {
            return false;
        }
        i = i + 1;
    }
    true
}

fn number_text_exec(s: &str) -> (r: bool)
    ensures
        r == number_text(s@),
{
    let n = s.unicode_len();
    let start: usize = if n > 0 && s.get_char(0) == '+' { 1 } else { 0 };
    let ghost d = unsigned_digits(s@);
    assert(d.len() == n - start);
    assert(forall|i: int| 0 <= i < d.len() ==> d[i] == s@[start + i]);
    if start >= n {
        return false;
    }
    let mut i: usize = start;
    while i < n
        invariant
            n == s@.len(),
            start <= i <= n,
            d == unsigned_digits(s@),
            d.len() == n - start,
            forall|j: int| 0 <= j < d.len() ==> d[j] == s@[start + j],
            forall|k: int| 0 <= k < i - start ==> '0' <= #[trigger] d[k] && d[k] <= '9',
        decreases n - i,
    {
        let c = s.get_char(i);
        if !('0' <= c && c <= '9') {
            assert(d[i - start] == c);
            return false;
        }
        i = i + 1;
    }
    true
}

/// Whether `ethabi`'s reader returns on `name`: `abi_read_safe`.
pub fn abi_read_safe_exec(name: &str) -> (r: bool)
    ensures
        r == abi_read_safe(name@),
    decreases name@.len(),
{
    let n = name.unicode_len();
    if n == 0 {
        return true;
    }
    let last = name.get_char(n - 1);
    if last == ')' {
        return false;
    }
    if last != ']' {
        return true;
    }
    if !all_ascii_exec(name) {
        return false;
    }
    let body = name.substring_char(0, n - 1);
    assert(body@ =~= name@.drop_last());
    proof { lemma_find_last_char_bounds(body@, '['); }
    match find_last_char_exec(body, '[') {
        None => n >= 2 && !number_text_exec(body),
        Some(k) => {
            let num = name.substring_char(k + 1, n - 1);
            if num.unicode_len() == 0 || number_text_exec(num) {
                let prefix = name.substring_char(0, k);
                assert(prefix@ =~= name@.take(k as int));
                abi_read_safe_exec(prefix)
            } else {
                true
            }
        },
    }
}

/// Reads an ABI type name with `ethabi::param_type::Reader::read`, keeping
/// the kind of the type and the sizes of integers and fixed byte strings;
/// an error is turned into its text. Claimed: the result is the named
/// result of reading `name`. Required: a name on which the reader does not
/// panic.
#[verifier::external_body]
fn read_abi_type(name: &str) -> (res: Result<AbiType, String>)
    requires
        abi_read_safe(name@),
    ensures
        match res {
            Ok(t) => abi_type_of(name@) == Ok::<AbiType, Seq<char>>(t),
            Err(e) => abi_type_of(name@) == Err::<AbiType, Seq<char>>(e@),
        },
{
    let t = match ethabi::param_type::Reader::read(name) { Ok(t) => t, Err(e) => return Err(e.to_string()) };
    Ok(match t {
        P::Address => AbiType::Address,
        P::Bytes => AbiType::Bytes,
        P::Int(n) => AbiType::Int(n),
        P::Uint(n) => AbiType::Uint(n),
        P::Bool => AbiType::Bool,
        P::String => AbiType::String,
        P::Array(_) => AbiType::Array,
        P::FixedBytes(n) => AbiType::FixedBytes(n),
        P::FixedArray(_, _) => AbiType::FixedArray,
        P::Tuple(_) => AbiType::Tuple,
    })
}

/// The Rust type of a 256-bit unsigned integer in generated code.
pub open spec fn u256_type() -> Seq<char> {
    "ic_web3_rs::types::U256"@
}

/// The Rust type of an address in generated code.
pub open spec fn address_type() -> Seq<char> {
    "ic_web3_rs::types::Address"@
}

/// The error of a type the generators cannot express.
pub open spec fn unimplemented_type() -> Seq<char> {
    "ic_solidity_bindgen::internal::Unimplemented"@
}

/// The Rust type that generated code uses for an ABI type.
pub open spec fn rust_type_spec(t: AbiType) -> Result<Seq<char>, Seq<char>> {
    match t {
        AbiType::Address => Ok(address_type()),
        AbiType::Bytes => Ok("Vec<u8>"@),
        AbiType::Int(n) => if 129 <= n <= 256 { Err(unimplemented_type()) }
            else if 65 <= n <= 128 { Ok("i128"@) }
            else if 33 <= n <= 64 { Ok("i64"@) }
            else if 17 <= n <= 32 { Ok("i32"@) }
            else if 9 <= n <= 16 { Ok("i16"@) }
            else if 1 <= n <= 8 { Ok("i8"@) }
            else { Err(unimplemented_type()) },
        AbiType::Uint(n) => if 129 <= n <= 256 { Ok(u256_type()) }
            else if 65 <= n <= 128 { Ok("u128"@) }
            else if 33 <= n <= 64 { Ok("u64"@) }
            else if 17 <= n <= 32 { Ok("u32"@) }
            else if 1 <= n <= 16 { Ok("u16"@) }
            else { Err(unimplemented_type()) },
        AbiType::Bool => Ok("bool"@),
        AbiType::String => Ok("String"@),
        _ => Err(unimplemented_type()),
    }
}

pub open spec fn string_result_view(r: Result<String, String>) -> Result<Seq<char>, Seq<char>> {
    match r {
        Ok(s) => Ok(s@),
        Err(e) => Err(e@),
    }
}

/// The Rust type that generated code uses for an ABI type.
pub fn convert_type_from_ethabi_param_type(param: AbiType) -> (res: Result<String, String>)
    ensures
        string_result_view(res) == rust_type_spec(param),
{
    let ty = match param {
        AbiType::Address => "ic_web3_rs::types::Address",
        AbiType::Bytes => "Vec<u8>",
        AbiType::Int(n) => {
            if 129 <= n && n <= 256 { return Err(String::from_str("ic_solidity_bindgen::internal::Unimplemented")); }
            else if 65 <= n && n <= 128 { "i128" }
            else if 33 <= n && n <= 64 { "i64" }
            else if 17 <= n && n <= 32 { "i32" }
            else if 9 <= n && n <= 16 { "i16" }
            else if 1 <= n && n <= 8 { "i8" }
            else { return Err(String::from_str("ic_solidity_bindgen::internal::Unimplemented")); }
        },
        AbiType::Uint(n) => {
            if 129 <= n && n <= 256 { "ic_web3_rs::types::U256" }
            else if 65 <= n && n <= 128 { "u128" }
            else if 33 <= n && n <= 64 { "u64" }
            else if 17 <= n && n <= 32 { "u32" }
            else if 1 <= n && n <= 16 { "u16" }
            else { return Err(String::from_str("ic_solidity_bindgen::internal::Unimplemented")); }
        },
        AbiType::Bool => "bool",
        AbiType::String => "String",
        _ => { return Err(String::from_str("ic_solidity_bindgen::internal::Unimplemented")); },
    };
    Ok(String::from_str(ty))
}

/// The Rust type of an ABI type given by name.
pub open spec fn abi_to_rust_spec(name: Seq<char>) -> Result<Seq<char>, Seq<char>> {
    match abi_type_of(name) {
        Err(e) => Err(e),
        Ok(t) => rust_type_spec(t),
    }
}

pub fn convert_type_from_abi_type(s: &str) -> (res: Result<String, String>)
    requires
        abi_read_safe(s@),
    ensures
        string_result_view(res) == abi_to_rust_spec(s@),
{
    let param = read_abi_type(s)?;
    convert_type_from_ethabi_param_type(param)
}

/// The Rust types of a comma-separated list of ABI types, each trimmed of
/// white space: the first error, if any.
pub open spec fn convert_list_spec(items: Seq<Seq<char>>) -> Result<Seq<Seq<char>>, Seq<char>>
    decreases items.len(),
{
    if items.len() == 0 {
        Ok(Seq::empty())
    } else {
        match convert_list_spec(items.drop_last()) {
            Err(e) => Err(e),
            Ok(done) => match abi_to_rust_spec(trim_spec(items.last(), false)) {
                Err(e) => Err(e),
                Ok(t) => Ok(done.push(t)),
            },
        }
    }
}

/// Whether converting the list reads every type it reaches without a panic
/// of the reader: each type up to the first error is readable.
pub open spec fn list_reads(items: Seq<Seq<char>>) -> bool
    decreases items.len(),
{
    if items.len() == 0 {
        true
    } else {
        list_reads(items.drop_last())
            && (convert_list_spec(items.drop_last()) is Err || abi_read_safe(trim_spec(items.last(), false)))
    }
}

proof fn lemma_list_reads_err_prefix(items: Seq<Seq<char>>, i: int)
    requires
        0 <= i <= items.len(),
        list_reads(items.take(i)),
        convert_list_spec(items.take(i)) is Err,
    ensures
        list_reads(items),
    decreases items.len() - i,
{
    if i < items.len() {
        assert(items.take(i + 1).drop_last() =~= items.take(i));
        lemma_list_reads_err_prefix(items, i + 1);
    } else {
        assert(items.take(i) =~= items);
    }
}

proof fn lemma_list_reads_prefix(items: Seq<Seq<char>>, i: int)
    requires
        0 <= i <= items.len(),
        list_reads(items),
    ensures
        list_reads(items.take(i)),
    decreases items.len() - i,
{
    if i < items.len() {
        assert(items.take(items.len() as int) =~= items);
        let j = items.len() - 1;
        assert(items.drop_last() =~= items.take(j));
        lemma_list_reads_prefix(items.drop_last(), i);
        assert(items.drop_last().take(i) =~= items.take(i));
    } else {
        assert(items.take(i) =~= items);
    }
}

pub open spec fn list_result_view(r: Result<Vec<String>, String>) -> Result<Seq<Seq<char>>, Seq<char>> {
    match r {
        Ok(v) => Ok(views(v@)),
        Err(e) => Err(e@),
    }
}

proof fn lemma_convert_list_err_prefix(items: Seq<Seq<char>>, i: int)
    requires
        0 <= i <= items.len(),
        convert_list_spec(items.take(i)) is Err,
    ensures
        convert_list_spec(items) == convert_list_spec(items.take(i)),
    decreases items.len() - i,
{
    if i < items.len() {
        assert(items.take(i + 1).drop_last() =~= items.take(i));
        lemma_convert_list_err_prefix(items, i + 1);
    } else {
        assert(items.take(i) =~= items);
    }
}

/// Converts each comma-separated ABI type of `list`. Where `check` is set,
/// `None` where a type that the conversion reaches is not readable.
fn convert_list(list: &str, check: bool) -> (res: Option<Result<Vec<String>, String>>)
    requires
        !check ==> list_reads(split_char(list@, ',')),
    ensures
        res is None <==> !list_reads(split_char(list@, ',')),
        res matches Some(r) ==> list_result_view(r) == convert_list_spec(split_char(list@, ',')),
{
    let pieces = split_at_char(list, ',');
    let ghost items = split_char(list@, ',');
    let mut out: Vec<String> = Vec::new();
    let mut i: usize = 0;
    assert(items.take(0) =~= Seq::<Seq<char>>::empty());
    assert(views(out@) =~= Seq::<Seq<char>>::empty());
    while i < pieces.len()
        invariant
            views(pieces@) == items,
            items == split_char(list@, ','),
            !check ==> list_reads(items),
            i <= pieces@.len(),
            list_reads(items.take(i as int)),
            convert_list_spec(items.take(i as int)) == Ok::<Seq<Seq<char>>, Seq<char>>(views(out@)),
        decreases pieces@.len() - i,
    {
        assert(items.take(i + 1).drop_last() =~= items.take(i as int));
        assert(items.take(i + 1).last() == pieces@[i as int]@);
        let t = trim(pieces[i].as_str(), false);
        if !abi_read_safe_exec(t.as_str()) {
            proof {
                if list_reads(items) {
                    lemma_list_reads_prefix(items, i + 1);
                }
            }
            return None;
        }
        assert(list_reads(items.take(i + 1)));
        match convert_type_from_abi_type(t.as_str()) {
            Ok(ty) => {
                let ghost before = views(out@);
                let ghost tv = ty@;
                out.push(ty);
                assert(views(out@) =~= before.push(tv));
            },
            Err(e) => {
                proof {
                    assert(convert_list_spec(items.take(i + 1)) == Err::<Seq<Seq<char>>, Seq<char>>(e@));
                    lemma_convert_list_err_prefix(items, i + 1);
                    lemma_list_reads_err_prefix(items, i + 1);
                }
                return Some(Err(e));
            },
        }
        i = i + 1;
    }
    assert(items.take(i as int) =~= items);
    Some(Ok(out))
}


/// Whether the `\w` class of the `regex` crate holds `c`.
pub uninterp spec fn regex_word_char(c: char) -> bool;

/// Calls `regex_syntax::is_word_character`, the test behind `\w`. Claimed:
/// the named result of `c`, which for ASCII characters holds exactly of
/// letters, digits and `_` (the function's documentation defines word
/// characters by Unicode properties that give exactly these in ASCII).
#[verifier::external_body]
fn is_word_character(c: char) -> (res: bool)
    ensures
        res == regex_word_char(c),
        (c as u32) < 128 ==> (res <==> ('a' <= c <= 'z' || 'A' <= c <= 'Z' || '0' <= c <= '9' || c == '_')),
{
    regex_syntax::is_word_character(c)
}

/// Whether the signature pattern can start its parameter list at `q`: a `(`
/// right after a word character, with a `)` somewhere after it.
pub open spec fn opens_params(s: Seq<char>, q: int) -> bool {
    &&& 0 < q < s.len()
    &&& s[q] == '('
    &&& regex_word_char(s[q - 1])
    &&& find_char(s.skip(q + 1), ')') is Some
}

/// The first position from `i` on where the parameter list can start.
pub open spec fn first_params_open(s: Seq<char>, i: int) -> Option<int>
    decreases s.len() - i,
{
    if i >= s.len() || i < 0 {
        None
    } else if opens_params(s, i) {
        Some(i)
    } else {
        first_params_open(s, i + 1)
    }
}

/// Where the run of word characters that ends at `j` starts.
pub open spec fn word_run_start(s: Seq<char>, j: int) -> int
    decreases j,
{
    if j > 0 && regex_word_char(s[j - 1]) { word_run_start(s, j - 1) } else { j }
}

/// The parts that the pattern `(\w+)\(([^)]*)\)(?::\(([^)]*)\))?` captures
/// in its leftmost match: the method name, the parameter list and, if
/// present, the result list.
pub open spec fn signature_parts(s: Seq<char>) -> (Seq<char>, Seq<char>, Option<Seq<char>>)
    recommends
        first_params_open(s, 0) is Some,
{
    let q = first_params_open(s, 0)->0;
    let p = word_run_start(s, q);
    let r = q + 1 + find_char(s.skip(q + 1), ')')->0;
    let ret = if r + 2 < s.len() && s[r + 1] == ':' && s[r + 2] == '(' && find_char(s.skip(r + 3), ')') is Some {
        Some(s.subrange(r + 3, r + 3 + find_char(s.skip(r + 3), ')')->0))
    } else {
        None
    };
    (s.subrange(p, q), s.subrange(q + 1, r), ret)
}

/// A contract method in ABI form: its name and the Rust types of its
/// parameters and results.
#[derive(Debug, Clone, PartialEq)]
pub struct ContractMethodIdentifier {
    pub identifier: String,
    pub params: Vec<String>,
    pub return_value: Vec<String>,
}

/// The view of a contract method: name, parameter types, result types.
pub struct ContractMethodView {
    pub identifier: Seq<char>,
    pub params: Seq<Seq<char>>,
    pub return_value: Seq<Seq<char>>,
}

impl View for ContractMethodIdentifier {
    type V = ContractMethodView;

    open spec fn view(&self) -> ContractMethodView {
        ContractMethodView { identifier: self.identifier@, params: views(self.params@), return_value: views(self.return_value@) }
    }
}

/// What reading a signature gives: the Rust types of the parameters (none
/// for an empty list), then of the results (none without a result list),
/// or the first error.
pub open spec fn parse_signature_spec(s: Seq<char>) -> Result<ContractMethodView, Seq<char>> {
    let (ident, params, ret) = signature_parts(s);
    let params_res = if params.len() == 0 { Ok(Seq::<Seq<char>>::empty()) } else { convert_list_spec(split_char(params, ',')) };
    match params_res {
        Err(e) => Err(e),
        Ok(ps) => {
            let ret_res = match ret {
                None => Ok(Seq::<Seq<char>>::empty()),
                Some(r) => convert_list_spec(split_char(r, ',')),
            };
            match ret_res {
                Err(e) => Err(e),
                Ok(rs) => Ok(ContractMethodView { identifier: ident, params: ps, return_value: rs }),
            }
        },
    }
}

/// The Rust types of a signature's parameters, or the first error.
pub open spec fn params_result(s: Seq<char>) -> Result<Seq<Seq<char>>, Seq<char>> {
    let params = signature_parts(s).1;
    if params.len() == 0 { Ok(Seq::<Seq<char>>::empty()) } else { convert_list_spec(split_char(params, ',')) }
}

/// Whether reading a signature reaches only types that ethabi's reader
/// reads without a panic.
pub open spec fn signature_reads(s: Seq<char>) -> bool {
    let parts = signature_parts(s);
    &&& (parts.1.len() == 0 || list_reads(split_char(parts.1, ',')))
    &&& (params_result(s) is Err || match parts.2 {
            None => true,
            Some(r) => list_reads(split_char(r, ',')),
        })
}

/// Whether `s` holds a `)` after position `from` (exclusive of it).
fn closing_after(s: &str, n: usize, from: usize) -> (res: Option<usize>)
    requires
        n == s@.len(),
        from <= n,
    ensures
        match find_char(s@.skip(from as int), ')') {
            Some(k) => res == Some((from + k) as usize),
            None => res is None,
        },
{
    let mut k: usize = from;
    while k < n && s.get_char(k) != ')'
        invariant
            n == s@.len(),
            from <= k <= n,
            forall|m: int| 0 <= m < k - from ==> s@.skip(from as int)[m] != ')',
        decreases n - k,
    {
        assert(s@.skip(from as int)[k - from] == s@[k as int]);
        k = k + 1;
    }
    proof {
        if k < n {
            assert(s@.skip(from as int)[k - from] == s@[k as int]);
        }
        lemma_find_char(s@.skip(from as int), ')', k - from);
    }
    if k < n { Some(k) } else { None }
}

/// Whether the parameter list can start at `q`.
fn opens_at(s: &str, n: usize, q: usize) -> (res: bool)
    requires
        n == s@.len(),
        q < n,
    ensures
        res == opens_params(s@, q as int),
{
    q > 0 && s.get_char(q) == '(' && is_word_character(s.get_char(q - 1)) && closing_after(s, n, q + 1).is_some()
}

/// Where the leftmost parameter list of a signature opens, if anywhere.
pub fn find_params_open(s: &str) -> (res: Option<usize>)
    ensures
        match first_params_open(s@, 0) {
            Some(q) => res == Some(q as usize),
            None => res is None,
        },
{
    let n = s.unicode_len();
    let mut q: usize = 0;
    while q < n && !opens_at(s, n, q)
        invariant
            n == s@.len(),
            q <= n,
            first_params_open(s@, q as int) == first_params_open(s@, 0),
        decreases n - q,
    {
        q = q + 1;
    }
    if q >= n { None } else { Some(q) }
}

impl ContractMethodIdentifier {
    /// Reads a method signature, or `None` where no name followed by a
    /// bracketed list occurs in it, or where one of the types it reaches is
    /// one that ethabi's reader cannot read.
    pub fn try_parse_from_str(s: &str) -> (res: Option<Result<ContractMethodIdentifier, String>>)
        ensures
            res is None <==> first_params_open(s@, 0) is None || !signature_reads(s@),
            res matches Some(Ok(m)) ==> parse_signature_spec(s@) == Ok::<ContractMethodView, Seq<char>>(m@),
            res matches Some(Err(e)) ==> parse_signature_spec(s@) == Err::<ContractMethodView, Seq<char>>(e@),
    {
        match find_params_open(s) {
            None => None,
            Some(_) => Self::parse_checked(s, true),
        }
    }

    /// Reads a method signature such as `getPool(address,address,uint24):(address)`.
    /// The signature must hold a name followed by a bracketed list, and the
    /// types it reaches must be readable.
    pub fn parse_from_str(s: &str) -> (res: Result<ContractMethodIdentifier, String>)
        requires
            first_params_open(s@, 0) is Some,
            signature_reads(s@),
        ensures
            match res {
                Ok(m) => parse_signature_spec(s@) == Ok::<ContractMethodView, Seq<char>>(m@),
                Err(e) => parse_signature_spec(s@) == Err::<ContractMethodView, Seq<char>>(e@),
            },
    {
        match Self::parse_checked(s, false) {
            Some(r) => r,
            None => { assert(false); Err(String::new()) },
        }
    }

    fn parse_checked(s: &str, check: bool) -> (res: Option<Result<ContractMethodIdentifier, String>>)
        requires
            first_params_open(s@, 0) is Some,
            !check ==> signature_reads(s@),
        ensures
            res is None <==> !signature_reads(s@),
            res matches Some(Ok(m)) ==> parse_signature_spec(s@) == Ok::<ContractMethodView, Seq<char>>(m@),
            res matches Some(Err(e)) ==> parse_signature_spec(s@) == Err::<ContractMethodView, Seq<char>>(e@),
    {
        let n = s.unicode_len();
        // the leftmost place where a parameter list opens
        let mut q: usize = 0;
        while q < n && !opens_at(s, n, q)
            invariant
                n == s@.len(),
                q <= n,
                first_params_open(s@, q as int) == first_params_open(s@, 0),
                first_params_open(s@, 0) is Some,
            decreases n - q,
        {
            q = q + 1;
        }
        if q >= n {
            assert(first_params_open(s@, q as int) is None);
            assert(false);
        }
        let ghost qs = q as int;
        assert(first_params_open(s@, 0) == Some(qs));
        let r = closing_after(s, n, q + 1).unwrap();
        proof { lemma_find_char_found(s@.skip(q + 1), ')'); }
        let mut p: usize = q;
        while p > 0 && is_word_character(s.get_char(p - 1))
            invariant
                n == s@.len(),
                p <= q < n,
                word_run_start(s@, p as int) == word_run_start(s@, qs),
            decreases p,
        {
            p = p - 1;
        }
        let identifier = String::from_str(s.substring_char(p, q));
        let params_str = s.substring_char(q + 1, r);
        let ghost parts = signature_parts(s@);
        assert(identifier@ =~= parts.0);
        assert(params_str@ =~= parts.1);
        let params = if params_str.unicode_len() == 0 {
            let v: Vec<String> = Vec::new();
            assert(views(v@) =~= Seq::<Seq<char>>::empty());
            v
        } else {
            match convert_list(params_str, check) {
                None => { return None; },
                Some(Err(e)) => { return Some(Err(e)); },
                Some(Ok(v)) => v,
            }
        };
        let ghost ps = views(params@);
        assert((if parts.1.len() == 0 { Ok(Seq::<Seq<char>>::empty()) } else { convert_list_spec(split_char(parts.1, ',')) })
            == Ok::<Seq<Seq<char>>, Seq<char>>(ps));
        let return_value = if n - r > 2 && s.get_char(r + 1) == ':' && s.get_char(r + 2) == '(' {
            proof { lemma_find_char_found(s@.skip(r + 3), ')'); }
            match closing_after(s, n, r + 3) {
                Some(e) => {
                    let ret_str = s.substring_char(r + 3, e);
                    assert(ret_str@ =~= s@.subrange(r + 3, r + 3 + find_char(s@.skip(r + 3), ')')->0));
                    assert(parts.2 == Some(ret_str@));
                    match convert_list(ret_str, check) {
                        None => { return None; },
                        Some(Err(e)) => { return Some(Err(e)); },
                        Some(Ok(v)) => v,
                    }
                },
                None => {
                    assert(parts.2 is None);
                    let v: Vec<String> = Vec::new();
                    assert(views(v@) =~= Seq::<Seq<char>>::empty());
                    v
                },
            }
        } else {
            assert(parts.2 is None);
            let v: Vec<String> = Vec::new();
            assert(views(v@) =~= Seq::<Seq<char>>::empty());
            v
        };
        let ghost rs = views(return_value@);
        assert((match parts.2 { None => Ok(Seq::<Seq<char>>::empty()), Some(x) => convert_list_spec(split_char(x, ',')) })
            == Ok::<Seq<Seq<char>>, Seq<char>>(rs));
        let res = ContractMethodIdentifier { identifier, params, return_value };
        Some(Ok(res))
    }
}

} // verus!
