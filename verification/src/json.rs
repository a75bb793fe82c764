//! JSON text. The documents that are handed to a cluster are written here:
//! strings are quoted and escaped, objects are written field by field. The
//! answers of services are read by `serde_json`.
use vstd::prelude::*;
use vstd::string::*;

use crate::run_id::{hex_char, hex_digit};
use crate::text::{from_chars, to_chars};

verus! {

/// Whether `serde_json` reads `text` as one JSON value.
pub uninterp spec fn is_json_value(text: Seq<char>) -> bool;

/// `serde_json::from_str` at the type `serde_json::Value`: reads a text as
/// one JSON value of any shape, and fails where the text is none. Whether it
/// fails depends on the text alone.
#[verifier::external_body]
pub(crate) fn parses_as_json(text: &str) -> (valid: bool)
    ensures
        valid == is_json_value(text@),
{
    serde_json::from_str::<serde_json::Value>(text).is_ok()
}

/// `c` as it stands inside a JSON string: a double quote and a backslash get
/// a backslash before them; backspace, form feed, line feed, carriage return
/// and tab are written with their letter; any other control character
/// becomes `\u00` and its two hexadecimal digits; any other character stands
/// for itself.
pub open spec fn json_escape_char(c: char) -> Seq<char> {
    if c == '"' {
        seq!['\\', '"']
    } else if c == '\\' {
        seq!['\\', '\\']
    } else if c == '\u{8}' {
        seq!['\\', 'b']
    } else if c == '\u{c}' {
        seq!['\\', 'f']
    } else if c == '\n' {
        seq!['\\', 'n']
    } else if c == '\r' {
        seq!['\\', 'r']
    } else if c == '\t' {
        seq!['\\', 't']
    } else if (c as u32) < 0x20 {
        seq!['\\', 'u', '0', '0', hex_char((c as u32 / 16) as nat), hex_char((c as u32 % 16) as nat)]
    } else {
        seq![c]
    }
}

/// The characters of `s`, each as it stands inside a JSON string.
pub open spec fn json_escape_spec(s: Seq<char>) -> Seq<char>
    decreases s.len(),
{
    if s.len() == 0 {
        Seq::empty()
    } else {
        json_escape_spec(s.drop_last()) + json_escape_char(s.last())
    }
}

/// `s` as a JSON string: escaped, between double quotes.
pub open spec fn json_string_spec(s: Seq<char>) -> Seq<char> {
    seq!['"'] + json_escape_spec(s) + seq!['"']
}

/// `s` as a JSON string.
pub fn json_string(s: &str) -> (r: String)
    ensures
        r@ == json_string_spec(s@),
{
    let chars = to_chars(s);
    let mut out: Vec<char> = Vec::new();
    out.push('"');
    let mut i: usize = 0;
    while i < chars.len()
        invariant
            i <= chars.len(),
            out@ == seq!['"'] + json_escape_spec(chars@.take(i as int)),
        decreases chars.len() - i,
    {
        let c = chars[i];
        proof {
            assert(chars@.take(i + 1).drop_last() =~= chars@.take(i as int));
        }
        let ghost before = out@;
        if c == '"' {
            out.push('\\');
            out.push('"');
        } else if c == '\\' {
            out.push('\\');
            out.push('\\');
        } else if c == '\u{8}' {
            out.push('\\');
            out.push('b');
        } else if c == '\u{c}' {
            out.push('\\');
            out.push('f');
        } else if c == '\n' {
            out.push('\\');
            out.push('n');
        } else if c == '\r' {
            out.push('\\');
            out.push('r');
        } else if c == '\t' {
            out.push('\\');
            out.push('t');
        } else if (c as u32) < 0x20 {
            let code: u32 = c as u32;
            let hi: u8 = (code / 16) as u8;
            let lo: u8 = (code % 16) as u8;
            out.push('\\');
            out.push('u');
            out.push('0');
            out.push('0');
            out.push(hex_digit(hi));
            out.push(hex_digit(lo));
        } else {
            out.push(c);
        }
        i += 1;
    }
    assert(chars@.take(chars.len() as int) == chars@);
    out.push('"');
    from_chars(&out)
}

} // verus!
