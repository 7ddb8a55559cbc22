//! Canister method identifiers such as
//! `get_last_snapshot : () -> (record { value : text; timestamp : nat64 })`:
//! their parts, the candid declarations of their argument and result types,
//! and the Rust bindings generated from those.

use vstd::prelude::*;
use candid::TypeEnv;
use candid::types::Type;
use crate::text::{views, join, join_spec, split_char, split_at_char, replace_all, replace_str};

verus! {

/// Whether `c` is white space in the sense of `char::is_whitespace`.
pub open spec fn is_ws(c: char) -> bool {
    ||| ('\t' <= c && c <= '\r')
    ||| c == ' '
    ||| c == '\u{85}'
    ||| c == '\u{a0}'
    ||| c == '\u{1680}'
    ||| ('\u{2000}' <= c && c <= '\u{200a}')
    ||| c == '\u{2028}'
    ||| c == '\u{2029}'
    ||| c == '\u{202f}'
    ||| c == '\u{205f}'
    ||| c == '\u{3000}'
}

/// Whether `c` is a round bracket.
pub open spec fn is_paren(c: char) -> bool {
    c == '(' || c == ')'
}

/// The characters that a trim removes: white space, or round brackets.
pub open spec fn trimmed_char(c: char, parens: bool) -> bool {
    if parens { is_paren(c) } else { is_ws(c) }
}

pub open spec fn trim_start_spec(s: Seq<char>, parens: bool) -> Seq<char>
    decreases s.len(),
{
    if s.len() > 0 && trimmed_char(s[0], parens) { trim_start_spec(s.skip(1), parens) } else { s }
}

pub open spec fn trim_end_spec(s: Seq<char>, parens: bool) -> Seq<char>
    decreases s.len(),
{
    if s.len() > 0 && trimmed_char(s.last(), parens) { trim_end_spec(s.drop_last(), parens) } else { s }
}

/// `s` without the white space (or the brackets) at both ends.
pub open spec fn trim_spec(s: Seq<char>, parens: bool) -> Seq<char> {
    trim_end_spec(trim_start_spec(s, parens), parens)
}

pub(crate) fn is_ws_char(c: char) -> (r: bool)
    ensures
        r == is_ws(c),
{
    ('\t' <= c && c <= '\r') || c == ' ' || c == '\u{85}' || c == '\u{a0}' || c == '\u{1680}'
        || ('\u{2000}' <= c && c <= '\u{200a}') || c == '\u{2028}' || c == '\u{2029}'
        || c == '\u{202f}' || c == '\u{205f}' || c == '\u{3000}'
}

fn trims(c: char, parens: bool) -> (r: bool)
    ensures
        r == trimmed_char(c, parens),
{
    if parens { c == '(' || c == ')' } else { is_ws_char(c) }
}

/// Removes white space (or round brackets) from both ends of `s`.
pub fn trim(s: &str, parens: bool) -> (res: String)
    ensures
        res@ == trim_spec(s@, parens),
{
    let n = s.unicode_len();
    let mut a: usize = 0;
    assert(s@.skip(0) =~= s@);
    while a < n && trims(s.get_char(a), parens)
        invariant
            n == s@.len(),
            a <= n,
            trim_start_spec(s@.skip(a as int), parens) == trim_start_spec(s@, parens),
        decreases n - a,
    {
        assert(s@.skip(a as int).skip(1) =~= s@.skip(a + 1));
        a = a + 1;
    }
    let ghost st = s@.skip(a as int);
    assert(trim_start_spec(st, parens) == st);
    let mut b: usize = n;
    assert(st.take(n - a) =~= st);
    while b > a && trims(s.get_char(b - 1), parens)
        invariant
            n == s@.len(),
            a <= b <= n,
            st == s@.skip(a as int),
            trim_end_spec(st.take(b - a), parens) == trim_end_spec(st, parens),
        decreases b,
    {
        assert(st.take(b - a).drop_last() =~= st.take(b - a - 1));
        assert(st.take(b - a).last() == s@[b - 1]);
        b = b - 1;
    }
    assert(s@.subrange(a as int, b as int) =~= st.take(b - a));
    String::from_str(s.substring_char(a, b))
}

/// Where `c` first occurs in `s`.
pub open spec fn find_char(s: Seq<char>, c: char) -> Option<nat>
    decreases s.len(),
{
    if s.len() == 0 {
        None
    } else if s[0] == c {
        Some(0)
    } else {
        match find_char(s.skip(1), c) {
            Some(i) => Some(i + 1),
            None => None,
        }
    }
}

/// Whether `->` occurs in `s` at position `k`.
pub open spec fn has_arrow_at(s: Seq<char>, k: int) -> bool {
    k + 1 < s.len() && s[k] == '-' && s[k + 1] == '>'
}

/// Where `->` first occurs in `s`.
pub open spec fn find_arrow(s: Seq<char>) -> Option<nat>
    decreases s.len(),
{
    if s.len() < 2 {
        None
    } else if s[0] == '-' && s[1] == '>' {
        Some(0)
    } else {
        match find_arrow(s.skip(1)) {
            Some(i) => Some(i + 1),
            None => None,
        }
    }
}

/// Where `find_char` points, there is the character.
pub proof fn lemma_find_char_found(s: Seq<char>, c: char)
    ensures
        find_char(s, c) matches Some(k) ==> k < s.len() && s[k as int] == c,
    decreases s.len(),
{
    if s.len() > 0 && s[0] != c {
        lemma_find_char_found(s.skip(1), c);
    }
}

pub(crate) proof fn lemma_find_char(s: Seq<char>, c: char, i: int)
    requires
        0 <= i <= s.len(),
        forall|k: int| 0 <= k < i ==> s[k] != c,
    ensures
        i < s.len() && s[i] == c ==> find_char(s, c) == Some(i as nat),
        i == s.len() ==> find_char(s, c) is None,
    decreases i,
{
    if i > 0 {
        lemma_find_char(s.skip(1), c, i - 1);
    }
}

proof fn lemma_find_arrow(s: Seq<char>, i: int)
    requires
        0 <= i,
        i + 1 <= s.len() || i == s.len(),
        forall|k: int| 0 <= k < i ==> !#[trigger] has_arrow_at(s, k),
    ensures
        i + 1 < s.len() && s[i] == '-' && s[i + 1] == '>' ==> find_arrow(s) == Some(i as nat),
        i + 1 >= s.len() ==> find_arrow(s) is None,
    decreases i,
{
    if i > 0 && s.len() >= 2 {
        assert forall|k: int| 0 <= k < i - 1 implies !#[trigger] has_arrow_at(s.skip(1), k) by {
            assert(!has_arrow_at(s, k + 1));
        }
        assert(!has_arrow_at(s, 0));
        lemma_find_arrow(s.skip(1), i - 1);
    }
}

/// The parts of a method identifier `name : (args) -> (result)`: the name,
/// the argument type and the result type, each trimmed of white space, the
/// types also of their enclosing brackets.
pub open spec fn extract_elements_spec(s: Seq<char>) -> (Seq<char>, Seq<char>, Seq<char>)
    recommends
        identifier_has_parts(s),
{
    let i = find_char(s, ':')->0 as int;
    let remains = s.skip(i + 1);
    let j = find_arrow(remains)->0 as int;
    (
        trim_spec(s.take(i), false),
        trim_spec(trim_spec(trim_spec(remains.take(j), false), true), false),
        trim_spec(trim_spec(trim_spec(remains.skip(j + 2), false), true), false),
    )
}

/// A method identifier has a `:` and, after it, a `->`.
pub open spec fn identifier_has_parts(s: Seq<char>) -> bool {
    &&& find_char(s, ':') is Some
    &&& find_arrow(s.skip(find_char(s, ':')->0 as int + 1)) is Some
}

fn trim_type_str(s: &str) -> (res: String)
    ensures
        res@ == trim_spec(trim_spec(trim_spec(s@, false), true), false),
{
    let t = trim(s, false);
    let u = trim(t.as_str(), true);
    trim(u.as_str(), false)
}

/// Splits a method identifier into its name, argument type and result type.
pub fn extract_elements(s: &str) -> (res: Result<(String, String, String), String>)
    requires
        identifier_has_parts(s@),
    ensures
        res matches Ok(parts) && (parts.0@, parts.1@, parts.2@) == extract_elements_spec(s@),
{
    let n = s.unicode_len();
    let mut i: usize = 0;
    while i < n && s.get_char(i) != ':'
        invariant
            n == s@.len(),
            i <= n,
            forall|k: int| 0 <= k < i ==> s@[k] != ':',
        decreases n - i,
    {
        i = i + 1;
    }
    proof { lemma_find_char(s@, ':', i as int); }
    let ghost remains = s@.skip(i + 1);
    let mut j: usize = i + 1;
    while n - j >= 2 && !(s.get_char(j) == '-' && s.get_char(j + 1) == '>')
        invariant
            n == s@.len(),
            i < n,
            i + 1 <= j <= n,
            remains == s@.skip(i + 1),
            forall|k: int| 0 <= k < j - (i + 1) ==> !#[trigger] has_arrow_at(remains, k),
        decreases n - j,
    {
        assert(remains[j - (i + 1)] == s@[j as int]);
        assert(remains[j - (i + 1) + 1] == s@[j + 1]);
        assert(!has_arrow_at(remains, j - (i + 1)));
        j = j + 1;
    }
    proof {
        lemma_find_arrow(remains, j - (i + 1));
    }
    let ident = s.substring_char(0, i);
    let args = s.substring_char(i + 1, j);
    let resp = s.substring_char(j + 2, n);
    assert(ident@ =~= s@.take(i as int));
    assert(args@ =~= remains.take(j - (i + 1)));
    assert(resp@ =~= remains.skip(j - (i + 1) + 2));
    Ok((trim(ident, false), trim_type_str(args), trim_type_str(resp)))
}


/// `type <key> = <value>;`
pub open spec fn did_type_spec(key: Seq<char>, value: Seq<char>) -> Seq<char> {
    "type "@ + key + " = "@ + value + ";"@
}

pub fn generate_did_type(key: &str, value: &str) -> (res: String)
    ensures
        res@ == did_type_spec(key@, value@),
{
    let mut res = String::from_str("type ");
    res.append(key);
    res.append(" = ");
    res.append(value);
    res.append(";");
    res
}

/// The name under which the argument type is declared.
pub open spec fn request_args_type_name() -> Seq<char> {
    "RequestArgsType"@
}

/// The name under which the result type is declared.
pub open spec fn response_type_name() -> Seq<char> {
    "ResponseType"@
}

/// The candid declarations of a method's argument and result types, on two
/// lines; a line is empty where its type is.
pub open spec fn did_spec(args_ty: Seq<char>, response_ty: Seq<char>) -> Seq<char> {
    (if args_ty.len() == 0 { Seq::empty() } else { did_type_spec(request_args_type_name(), args_ty) })
        + "\n"@
        + (if response_ty.len() == 0 { Seq::empty() } else { did_type_spec(response_type_name(), response_ty) })
}

/// The candid text of a method identifier's types.
pub open spec fn identifier_did(s: Seq<char>) -> Seq<char> {
    did_spec(extract_elements_spec(s).1, extract_elements_spec(s).2)
}

/// Whether candid's parser accepts `did` as a candid program.
pub uninterp spec fn did_parses(did: Seq<char>) -> bool;

#[verifier::external_type_specification]
#[verifier::external_body]
pub struct ExTypeEnv(TypeEnv);

#[verifier::external_type_specification]
#[verifier::external_body]
pub struct ExType(Type);

/// The type environment that candid's `check_prog` builds from the program
/// `did` parses to, starting from an empty environment.
pub uninterp spec fn did_type_env(did: Seq<char>) -> TypeEnv;

/// Whether candid's `check_prog` accepts the program that `did` parses to.
pub uninterp spec fn did_checks(did: Seq<char>) -> bool;

/// Parses `did` with candid's `IDLProg` parser (`str::parse`) and, when it
/// parses, type-checks the program with `candid::check_prog` into a new
/// `TypeEnv`. Claimed: there is a result exactly when the text parses; then
/// the environment is the named one for the text, and the flag is whether
/// the type check succeeded (the conversion of its `Result`). Parsing and
/// checking are functions of the text alone.
#[verifier::external_body]
fn checked_type_env(did: &str) -> (res: Option<(TypeEnv, bool)>)
    ensures
        res is Some <==> did_parses(did@),
        res matches Some(p) ==> p.0 == did_type_env(did@) && p.1 == did_checks(did@),
{
    match did.parse::<candid::IDLProg>() {
        Ok(ast) => {
            let mut env = TypeEnv::new();
            let ok = candid::check_prog(&mut env, &ast).is_ok();
            Some((env, ok))
        },
        Err(_) => None,
    }
}

/// Whether candid's Rust binding generator returns on the environment of
/// `did`, printed without an actor: the program parses and type-checks.
/// Without an actor the generator prints each definition (records and
/// variants as structs and enums, functions and services through candid's
/// `define_function!` and `define_service!`, nested ones under names of
/// their own); its `unimplemented!` arms lie in the printing of an actor.
/// A program that does not type-check can leave placeholder types in the
/// environment, on which the printer panics.
pub open spec fn bindable(did: Seq<char>) -> bool {
    did_parses(did) && did_checks(did)
}

/// What `TypeEnv::find_type` finds in an environment under a name: the type
/// declared with that name, or `None` where there is none.
pub uninterp spec fn declared_type(env: TypeEnv, name: Seq<char>) -> Option<Type>;

/// Calls `TypeEnv::find_type` and clones what it finds. Claimed: the result
/// is the named look-up in the environment, `None` standing for the error;
/// `find_type` reads the environment's map and nothing else.
#[verifier::external_body]
fn find_type(env: &TypeEnv, key: &str) -> (res: Option<Type>)
    ensures
        res == declared_type(*env, key@),
{
    match env.find_type(key) {
        Ok(t) => Some(t.clone()),
        Err(_) => None,
    }
}

/// What `candid::bindings::rust::compile` prints for an environment without
/// an actor, with candid's default configuration except for the target
/// (the canister stub where `stub_target` holds, else candid's default)
/// and the derive line.
pub uninterp spec fn candid_rust_bindings(env: TypeEnv, stub_target: bool, type_attributes: Seq<char>) -> Seq<char>;

/// Calls `candid::bindings::rust::compile` on the environment, without an
/// actor, with `Config::new()` given the derive line and, where
/// `stub_target` holds, the canister-stub target. Claimed: the text is the
/// named one for these arguments; `compile` reads nothing else. Required:
/// the environment is that of a program that parses and type-checks, on
/// which the generator does not panic (see `bindable`).
#[verifier::external_body]
fn rust_bindings(env: &TypeEnv, stub_target: bool, type_attributes: &str) -> (res: String)
    requires
        exists|did: Seq<char>| bindable(did) && *env == did_type_env(did),
    ensures
        res@ == candid_rust_bindings(*env, stub_target, type_attributes@),
{
    let mut config = candid::bindings::rust::Config::new();
    config.type_attributes = type_attributes.to_string();
    if stub_target {
        config.target = candid::bindings::rust::Target::CanisterStub;
    }
    candid::bindings::rust::compile(&config, env, &None)
}

/// Whether `regex::Regex::new` accepts `pattern`.
pub uninterp spec fn regex_valid(pattern: Seq<char>) -> bool;

/// What `regex::Regex::replace_all` gives for `s` with the regex of
/// `pattern` and the replacement `rep`.
pub uninterp spec fn regex_replaced(pattern: Seq<char>, s: Seq<char>, rep: Seq<char>) -> Seq<char>;

/// Builds a regex with `regex::Regex::new` and, where the pattern is
/// accepted, calls `replace_all`. Claimed: a result exactly where the
/// pattern is accepted, and then the named replacement; both calls read
/// their arguments alone.
#[verifier::external_body]
pub(crate) fn regex_replace_all(pattern: &str, s: &str, rep: &str) -> (res: Option<String>)
    ensures
        res is Some <==> regex_valid(pattern@),
        res matches Some(r) ==> r@ == regex_replaced(pattern@, s@, rep@),
{
    match regex::Regex::new(pattern) {
        Ok(re) => Some(re.replace_all(s, rep).to_string()),
        Err(_) => None,
    }
}

/// The pattern of a field name in generated bindings, and what a match is
/// replaced by: the field made public.
pub open spec fn field_pattern() -> Seq<char> {
    "[^{](?:pub )*(\\w+): "@
}

pub open spec fn public_field() -> Seq<char> {
    " pub ${1}: "@
}

/// Generated bindings without candid's `Result` import, and with its
/// `Result` enum kept private.
pub open spec fn results_stripped(s: Seq<char>) -> Seq<char> {
    replace_all(replace_all(s, "use ic_cdk::api::call::CallResult as Result;"@, Seq::empty()), "pub enum Result"@, "enum Result"@)
}

/// The Rust bindings of a candid file's text, with its `Result` kept
/// private and every field public; `None` where candid does not parse or
/// type-check the text (or where the regex crate refused the field
/// pattern).
pub fn create_candid_rust_binding(did: &str) -> (res: Option<String>)
    ensures
        res is Some <==> bindable(did@) && regex_valid(field_pattern()),
        res matches Some(b) ==> b@ == regex_replaced(
            field_pattern(),
            results_stripped(candid_rust_bindings(did_type_env(did@), false, Seq::empty())),
            public_field(),
        ),
{
    match checked_type_env(did) {
        None => None,
        Some((env, checked)) => {
            if !checked {
                return None;
            }
            proof { reveal_strlit(""); reveal_strlit("use ic_cdk::api::call::CallResult as Result;"); reveal_strlit("pub enum Result"); }
            assert(""@ =~= Seq::<char>::empty());
            let raw = rust_bindings(&env, false, "");
            let a = replace_str(raw.as_str(), "use ic_cdk::api::call::CallResult as Result;", "");
            let b = replace_str(a.as_str(), "pub enum Result", "enum Result");
            regex_replace_all("[^{](?:pub )*(\\w+): ", b.as_str(), " pub ${1}: ")
        },
    }
}

/// A line as `str::lines` gives it: without a final carriage return.
pub open spec fn strip_cr(l: Seq<char>) -> Seq<char> {
    if l.len() > 0 && l.last() == '\r' { l.drop_last() } else { l }
}

/// The lines of a text, as `str::lines` splits it.
pub open spec fn lines_spec(s: Seq<char>) -> Seq<Seq<char>> {
    let parts = split_char(s, '\n');
    let parts = if parts.last().len() == 0 { parts.drop_last() } else { parts };
    parts.map_values(|l: Seq<char>| strip_cr(l))
}

/// Whether a generated line is kept: it is neither empty nor a comment.
pub open spec fn kept_line(l: Seq<char>) -> bool {
    !(l.len() == 0 || (l.len() >= 2 && l[0] == '/' && l[1] == '/'))
}

/// The kept lines, in order.
pub open spec fn kept_lines(ls: Seq<Seq<char>>) -> Seq<Seq<char>>
    decreases ls.len(),
{
    if ls.len() == 0 {
        Seq::empty()
    } else if kept_line(ls.last()) {
        kept_lines(ls.drop_last()).push(ls.last())
    } else {
        kept_lines(ls.drop_last())
    }
}

/// Generated code without its comment lines and blank lines.
pub open spec fn strip_comments_spec(contents: Seq<char>) -> Seq<char> {
    join_spec(kept_lines(lines_spec(contents)), "\n"@)
}

fn drop_cr(l: &str) -> (res: String)
    ensures
        res@ == strip_cr(l@),
{
    let n = l.unicode_len();
    if n > 0 && l.get_char(n - 1) == '\r' {
        assert(l@.subrange(0, n - 1) =~= l@.drop_last());
        String::from_str(l.substring_char(0, n - 1))
    } else {
        String::from_str(l)
    }
}

/// Removes comment lines and blank lines from generated code.
pub fn strip_comment_lines(contents: &str) -> (res: String)
    ensures
        res@ == strip_comments_spec(contents@),
{
    let parts = split_at_char(contents, '\n');
    proof { crate::text::lemma_split_char_nonempty(contents@, '\n'); }
    let ghost all = split_char(contents@, '\n');
    let mut count = parts.len();
    assert(views(parts@)[count - 1] == parts@[count - 1]@);
    if parts[count - 1].unicode_len() == 0 {
        count = count - 1;
    }
    let ghost used = if all.last().len() == 0 { all.drop_last() } else { all };
    assert(used.len() == count);
    let ghost ls = lines_spec(contents@);
    let mut kept: Vec<String> = Vec::new();
    let mut i: usize = 0;
    while i < count
        invariant
            count <= parts@.len(),
            views(parts@) == all,
            used.len() == count,
            forall|k: int| 0 <= k < count ==> used[k] == all[k],
            ls == used.map_values(|l: Seq<char>| strip_cr(l)),
            i <= count,
            views(kept@) == kept_lines(ls.take(i as int)),
        decreases count - i,
    {
        let l = drop_cr(parts[i].as_str());
        assert(views(parts@)[i as int] == parts@[i as int]@);
        assert(l@ == ls[i as int]);
        assert(ls.take(i + 1).drop_last() =~= ls.take(i as int));
        let n = l.unicode_len();
        let keep = !(n == 0 || (n >= 2 && l.as_str().get_char(0) == '/' && l.as_str().get_char(1) == '/'));
        if keep {
            let ghost before = views(kept@);
            let ghost lv = l@;
            kept.push(l);
            assert(views(kept@) =~= before.push(lv));
        }
        i = i + 1;
    }
    assert(ls.take(count as int) =~= ls);
    join(&kept, "\n")
}

/// A canister method identifier with the candid types of its argument and
/// result declared in `type_env`.
pub struct CanisterMethodIdentifier {
    identifier: String,
    type_env: TypeEnv,
    did: String,
    checked: bool,
}

impl CanisterMethodIdentifier {
    /// The environment is the one candid builds from the kept candid text,
    /// and the flag records whether candid's type check accepted that text.
    #[verifier::type_invariant]
    spec fn well_formed(self) -> bool {
        &&& did_parses(self.did@)
        &&& self.type_env == did_type_env(self.did@)
        &&& self.checked == did_checks(self.did@)
    }

    /// The method's name.
    pub closed spec fn name(self) -> Seq<char> {
        self.identifier@
    }

    /// The candid text that declares the method's argument and result types.
    pub closed spec fn did_text(self) -> Seq<char> {
        self.did@
    }

    /// The method's name.
    pub fn identifier(&self) -> (res: &String)
        ensures
            res@ == self.name(),
    {
        &self.identifier
    }

    pub const REQUEST_ARGS_TYPE_NAME: &'static str = "RequestArgsType";
    pub const RESPONSE_TYPE_NAME: &'static str = "ResponseType";

    /// The derive line of the generated types.
    pub const TYPE_ATTRIBUTES: &'static str = "#[derive(Clone, Debug, candid :: CandidType, candid :: Deserialize, serde :: Serialize, chainsight_cdk_macros :: StableMemoryStorable)]";

    /// The candid declarations of a method's argument and result types.
    pub fn generate_did(args_ty: &str, response_ty: &str) -> (res: String)
        ensures
            res@ == did_spec(args_ty@, response_ty@),
    {
        proof {
            reveal_strlit("RequestArgsType");
            reveal_strlit("ResponseType");
        }
        let mut res = if args_ty.unicode_len() == 0 {
            String::new()
        } else {
            generate_did_type("RequestArgsType", args_ty)
        };
        res.append("\n");
        if response_ty.unicode_len() > 0 {
            let r = generate_did_type("ResponseType", response_ty);
            res.append(r.as_str());
        } else {
            assert(res@ =~= res@ + Seq::<char>::empty());
        }
        assert(res@ =~= did_spec(args_ty@, response_ty@));
        res
    }

    /// Reads a method identifier whose types candid accepts.
    pub fn new(s: &str) -> (res: Result<Self, String>)
        requires
            identifier_has_parts(s@),
            did_parses(identifier_did(s@)),
        ensures
            res matches Ok(m) && m.name() == extract_elements_spec(s@).0 && m.did_text() == identifier_did(s@),
    {
        let (identifier, args_ty, response_ty) = match extract_elements(s) {
            Ok(parts) => parts,
            Err(e) => { return Err(e); },
        };
        let did = Self::generate_did(args_ty.as_str(), response_ty.as_str());
        match checked_type_env(did.as_str()) {
            Some((type_env, checked)) => Ok(CanisterMethodIdentifier { identifier, type_env, did, checked }),
            None => Err(String::from_str("Invalid canister method identifier")),
        }
    }

    /// Reads a method identifier, or `None` where it lacks its `:` or `->`
    /// or candid rejects its types.
    pub fn try_new(s: &str) -> (res: Option<Self>)
        ensures
            identifier_has_parts(s@) && did_parses(identifier_did(s@)) <==> res is Some,
            res matches Some(m) ==> m.name() == extract_elements_spec(s@).0 && m.did_text() == identifier_did(s@),
    {
        let n = s.unicode_len();
        let mut i: usize = 0;
        while i < n && s.get_char(i) != ':'
            invariant
                n == s@.len(),
                i <= n,
                forall|k: int| 0 <= k < i ==> s@[k] != ':',
            decreases n - i,
        {
            i = i + 1;
        }
        proof { lemma_find_char(s@, ':', i as int); }
        if i == n {
            return None;
        }
        let rest = s.substring_char(i + 1, n);
        assert(rest@ =~= s@.skip(i + 1));
        let m = rest.unicode_len();
        let mut j: usize = 0;
        while m - j >= 2 && !(rest.get_char(j) == '-' && rest.get_char(j + 1) == '>')
            invariant
                m == rest@.len(),
                j <= m,
                forall|k: int| 0 <= k < j ==> !#[trigger] has_arrow_at(rest@, k),
            decreases m - j,
        {
            assert(!has_arrow_at(rest@, j as int));
            j = j + 1;
        }
        proof {
            if m - j < 2 {
                assert forall|k: int| 0 <= k < m - 1 implies !#[trigger] has_arrow_at(rest@, k) by {
                    if k >= j { }
                }
                lemma_find_arrow(rest@, (if m == 0 { 0 } else { m - 1 }) as int);
            } else {
                lemma_find_arrow(rest@, j as int);
            }
        }
        if m - j < 2 {
            return None;
        }
        let (_, args_ty, response_ty) = match extract_elements(s) {
            Ok(parts) => parts,
            Err(_) => { return None; },
        };
        let did = Self::generate_did(args_ty.as_str(), response_ty.as_str());
        if checked_type_env(did.as_str()).is_none() {
            return None;
        }
        match Self::new(s) {
            Ok(m) => Some(m),
            Err(_) => None,
        }
    }

    /// Whether candid can print the Rust bindings of the identifier's types.
    pub fn bindable(&self) -> (b: bool)
        ensures
            b == bindable(self.did_text()),
    {
        proof { use_type_invariant(self); }
        self.checked
    }

    /// The Rust bindings of the identifier's types, without comment lines
    /// and blank lines.
    pub fn compile(&self) -> (res: String)
        requires
            bindable(self.did_text()),
        ensures
            res@ == strip_comments_spec(candid_rust_bindings(did_type_env(self.did_text()), true, Self::TYPE_ATTRIBUTES@)),
    {
        proof { use_type_invariant(self); }
        let contents = rust_bindings(&self.type_env, true, Self::TYPE_ATTRIBUTES);
        strip_comment_lines(contents.as_str())
    }

    /// The Rust bindings of the identifier's types, or `None` where candid
    /// cannot print them.
    pub fn try_compile(&self) -> (res: Option<String>)
        ensures
            res is Some <==> bindable(self.did_text()),
            res matches Some(c) ==> c@ == strip_comments_spec(candid_rust_bindings(did_type_env(self.did_text()), true, Self::TYPE_ATTRIBUTES@)),
    {
        if self.bindable() { Some(self.compile()) } else { None }
    }

    /// The declared argument type and result type, where declared.
    pub fn get_types(&self) -> (res: (Option<Type>, Option<Type>))
        ensures
            res.0 == declared_type(did_type_env(self.did_text()), "RequestArgsType"@),
            res.1 == declared_type(did_type_env(self.did_text()), "ResponseType"@),
    {
        (self.find_type("RequestArgsType"), self.find_type("ResponseType"))
    }

    fn find_type(&self, key: &str) -> (res: Option<Type>)
        ensures
            res == declared_type(did_type_env(self.did_text()), key@),
    {
        proof { use_type_invariant(self); }
        find_type(&self.type_env, key)
    }
}

/// The types module of a component that calls a canister method: aliases,
/// from the component's bindings crate, of the response type and, where the
/// method takes arguments, of the argument type.
pub open spec fn types_from_bindings_spec(id: Seq<char>, args_ty: Seq<char>) -> Seq<char> {
    "use "@ + id + "_bindings as bindings;\npub type ResponseType = bindings::ResponseType;\n"@
        + (if args_ty.len() > 0 { "pub type RequestArgsType = bindings::RequestArgsType;"@ } else { Seq::empty() })
}

/// The types module of component `id` that calls the method `identifier`;
/// an error where the identifier cannot be read.
pub fn generate_types_from_bindings(id: &str, identifier: &str) -> (res: Result<String, String>)
    ensures
        res is Ok <==> identifier_has_parts(identifier@) && did_parses(identifier_did(identifier@)),
        res matches Ok(t) ==> t@ == types_from_bindings_spec(id@, extract_elements_spec(identifier@).1),
        res matches Err(e) ==> e@ == "Invalid canister method identifier"@,
{
    if CanisterMethodIdentifier::try_new(identifier).is_none() {
        return Err(String::from_str("Invalid canister method identifier"));
    }
    let (_, args_ty, _) = match extract_elements(identifier) {
        Ok(parts) => parts,
        Err(e) => { return Err(e); },
    };
    let mut codes = String::from_str("use ");
    codes.append(id);
    codes.append("_bindings as bindings;\npub type ResponseType = bindings::ResponseType;\n");
    if args_ty.unicode_len() > 0 {
        codes.append("pub type RequestArgsType = bindings::RequestArgsType;");
    } else {
        assert(codes@ =~= codes@ + Seq::<char>::empty());
    }
    Ok(codes)
}

} // verus!
