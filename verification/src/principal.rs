//! Principals of the Internet Computer, as candid represents them.

use vstd::prelude::*;
use candid::{Nat, Principal};

verus! {

#[verifier::external_type_specification]
#[verifier::external_body]
pub struct ExPrincipal(Principal);

#[verifier::external_type_specification]
#[verifier::external_body]
pub struct ExNat(Nat);

/// What `candid::Principal::from_text` gives for `s`: the principal, or
/// `None` where it refuses the text.
pub uninterp spec fn principal_parse(s: Seq<char>) -> Option<Principal>;

/// Whether `candid::Principal::from_text` accepts `s`.
pub open spec fn principal_text_valid(s: Seq<char>) -> bool {
    principal_parse(s) is Some
}

/// `c` with an ASCII capital letter made small.
pub open spec fn ascii_lower(c: char) -> char {
    if 'A' <= c && c <= 'Z' { ((c as u32) + 32) as char } else { c }
}

/// `s` in ASCII lower case (`str::to_ascii_lowercase`).
pub open spec fn ascii_lowercase(s: Seq<char>) -> Seq<char> {
    s.map_values(|c: char| ascii_lower(c))
}

/// Calls `Principal::from_text`. Claimed: its result is the named parse of
/// the text, `None` standing for the error; parsing is a function of the
/// text alone.
#[verifier::external_body]
pub(crate) fn principal_from_text(s: &str) -> (res: Option<Principal>)
    ensures
        res == principal_parse(s@),
{
    match Principal::from_text(s) {
        Ok(p) => Some(p),
        Err(_) => None,
    }
}

/// Calls `Principal::from_text` and, where it succeeds, `to_string` on the
/// principal. Claimed: a text exactly when the input is accepted, and then
/// the input in lower case, since `from_text` accepts only texts whose lower
/// case is the principal's printed form.
#[verifier::external_body]
pub(crate) fn principal_canonical_text(s: &str) -> (res: Option<String>)
    ensures
        res is Some <==> principal_text_valid(s@),
        res matches Some(t) ==> t@ == ascii_lowercase(s@),
{
    match Principal::from_text(s) {
        Ok(p) => Some(p.to_string()),
        Err(_) => None,
    }
}

/// Calls `Principal::anonymous` and prints it with `to_string`. Claimed: the
/// text `2vxsx-fae`, the printed form of the one-byte principal `0x04`.
#[verifier::external_body]
pub(crate) fn anonymous_principal_text() -> (res: String)
    ensures
        res@ == "2vxsx-fae"@,
{
    Principal::anonymous().to_string()
}

} // verus!
