//! JSON text of strings, as `serde_json` writes it.

use vstd::prelude::*;

verus! {

/// A hexadecimal digit in lower case.
pub open spec fn hex_digit(d: nat) -> char {
    if d < 10 { ((d + 48) as u32) as char } else { ((d + 87) as u32) as char }
}

/// How a JSON string writes one character: `"` and `\` and the control
/// characters are escaped, the short forms where JSON has them.
pub open spec fn json_escape(c: char) -> Seq<char> {
    if c == '"' {
        seq!['\\', '"']
    } else if c == '\\' {
        seq!['\\', '\\']
    } else if c == '\u{8}' {
        seq!['\\', 'b']
    } else if c == '\t' {
        seq!['\\', 't']
    } else if c == '\n' {
        seq!['\\', 'n']
    } else if c == '\u{c}' {
        seq!['\\', 'f']
    } else if c == '\r' {
        seq!['\\', 'r']
    } else if (c as u32) < 32 {
        seq!['\\', 'u', '0', '0', hex_digit((c as nat) / 16), hex_digit((c as nat) % 16)]
    } else {
        seq![c]
    }
}

/// The characters of a text, each written as a JSON string writes it.
pub open spec fn json_escaped(s: Seq<char>) -> Seq<char>
    decreases s.len(),
{
    if s.len() == 0 {
        Seq::empty()
    } else {
        json_escaped(s.drop_last()) + json_escape(s.last())
    }
}

/// The JSON string of a text.
pub open spec fn json_string_spec(s: Seq<char>) -> Seq<char> {
    seq!['"'] + json_escaped(s) + seq!['"']
}

/// Calls `serde_json::to_string` on a text. Claimed: the text between
/// double quotes, with `"`, `\` and the control characters below U+0020
/// escaped as `serde_json`'s escape table gives them (the short forms
/// `\b \t \n \f \r`, otherwise `\u00` and two lower-case hex digits).
/// Writing a string cannot fail.
#[verifier::external_body]
pub fn json_string(s: &str) -> (res: String)
    ensures
        res@ == json_string_spec(s@),
{
    serde_json::to_string(s).unwrap()
}

/// A text with no character that JSON escapes is written as itself.
pub proof fn lemma_json_plain(s: Seq<char>)
    requires
        forall|i: int| 0 <= i < s.len() ==> (#[trigger] s[i] as u32) >= 32 && s[i] != '"' && s[i] != '\\',
    ensures
        json_escaped(s) == s,
    decreases s.len(),
{
    if s.len() > 0 {
        lemma_json_plain(s.drop_last());
        assert(s.drop_last().push(s.last()) =~= s);
        assert((s[s.len() - 1] as u32) >= 32);
    }
}

} // verus!
