//! Generated source text, kept for display in tests.

use vstd::prelude::*;
use crate::method_identifier::{regex_replace_all, regex_replaced, regex_valid};

verus! {

/// A piece of generated source code.
#[derive(Clone, Debug)]
pub struct SrcString {
    value: String,
}

impl SrcString {
    pub closed spec fn text(self) -> Seq<char> {
        self.value@
    }

    pub fn new(value: String) -> (res: Self)
        ensures
            res.text() == value@,
    {
        SrcString { value }
    }

    pub fn value(&self) -> (res: &str)
        ensures
            res@ == self.text(),
    {
        self.value.as_str()
    }
}

/// The five regex rewrites that lay generated code out on lines, each a
/// pattern and its replacement: tokens that glue to their neighbours lose
/// the space before them, commas get one after, closing braces and
/// statement ends start new lines.
pub open spec fn format_rule(i: int) -> (Seq<char>, Seq<char>) {
    if i == 0 {
        (" (?:(::|[,.!<>:;(\\[])) ?"@, "$1"@)
    } else if i == 1 {
        ("(,)"@, "$1 "@)
    } else if i == 2 {
        (" ?(\\}[^;])"@, "\n$1"@)
    } else if i == 3 {
        ("(}) "@, "$1\n\n"@)
    } else {
        ("([;\\]]|\\{) ?"@, "$1\n"@)
    }
}

/// The text after the first `n` rewrites.
pub open spec fn formatted(src: Seq<char>, n: int) -> Seq<char>
    decreases n,
{
    if n <= 0 {
        src
    } else {
        regex_replaced(format_rule(n - 1).0, formatted(src, n - 1), format_rule(n - 1).1)
    }
}

/// Lays out generated code on lines with five regex rewrites; `None` where
/// the regex crate refused one of their patterns.
pub fn simple_src_format(src: &str) -> (res: Option<String>)
    ensures
        res is Some <==> (forall|i: int| 0 <= i < 5 ==> regex_valid(#[trigger] format_rule(i).0)),
        res matches Some(r) ==> r@ == formatted(src@, 5),
{
    let r1 = match regex_replace_all(" (?:(::|[,.!<>:;(\\[])) ?", src, "$1") {
        Some(r) => r,
        None => { assert(!regex_valid(format_rule(0).0)); return None; },
    };
    let r2 = match regex_replace_all("(,)", r1.as_str(), "$1 ") {
        Some(r) => r,
        None => { assert(!regex_valid(format_rule(1).0)); return None; },
    };
    let r3 = match regex_replace_all(" ?(\\}[^;])", r2.as_str(), "\n$1") {
        Some(r) => r,
        None => { assert(!regex_valid(format_rule(2).0)); return None; },
    };
    let r4 = match regex_replace_all("(}) ", r3.as_str(), "$1\n\n") {
        Some(r) => r,
        None => { assert(!regex_valid(format_rule(3).0)); return None; },
    };
    let r5 = match regex_replace_all("([;\\]]|\\{) ?", r4.as_str(), "$1\n") {
        Some(r) => r,
        None => { assert(!regex_valid(format_rule(4).0)); return None; },
    };
    assert(formatted(src@, 0) == src@);
    assert(formatted(src@, 1) == r1@);
    assert(formatted(src@, 2) == r2@);
    assert(formatted(src@, 3) == r3@);
    assert(formatted(src@, 4) == r4@);
    assert(formatted(src@, 5) == r5@);
    assert forall|i: int| 0 <= i < 5 implies regex_valid(#[trigger] format_rule(i).0) by {
        if i == 0 {} else if i == 1 {} else if i == 2 {} else if i == 3 {} else {}
    }
    Some(r5)
}

impl SrcString {
    /// The text laid out on lines, as it is displayed.
    pub fn to_display(&self) -> (res: Option<String>)
        ensures
            res is Some <==> (forall|i: int| 0 <= i < 5 ==> regex_valid(#[trigger] format_rule(i).0)),
            res matches Some(r) ==> r@ == formatted(self.text(), 5),
    {
        simple_src_format(self.value.as_str())
    }
}

} // verus!
