//! Reading fields out of JSON text and quoting strings as JSON, through `serde_json`.
use vstd::prelude::*;

verus! {

/// The string found at JSON pointer `pointer` in the document `text`, if `text`
/// parses as JSON and the pointer leads to a string.
pub uninterp spec fn json_str_at(text: Seq<char>, pointer: Seq<char>) -> Option<Seq<char>>;

/// The unsigned integer found at JSON pointer `pointer` in the document `text`, if
/// `text` parses as JSON and the pointer leads to a number that is a `u64`.
pub uninterp spec fn json_u64_at(text: Seq<char>, pointer: Seq<char>) -> Option<u64>;

/// The compact JSON text of the value found at JSON pointer `pointer` in the
/// document `text`, if `text` parses as JSON and the pointer leads to a value.
pub uninterp spec fn json_text_at(text: Seq<char>, pointer: Seq<char>) -> Option<Seq<char>>;

/// The lower-case hexadecimal digit for `d` (below sixteen).
pub open spec fn hex_digit(d: u32) -> char {
    if d < 10 { ((d + 48) as u8) as char } else { ((d + 87) as u8) as char }
}

/// How `serde_json` writes one character inside a string: `"` and `\` and the
/// control characters below U+0020 escaped (`\b \t \n \f \r`, the others as
/// `\u00xx` in lower-case hexadecimal), every other character as it is.
pub open spec fn json_escape(c: char) -> Seq<char> {
    let u = c as u32;
    if c == '"' {
        seq!['\\', '"']
    } else if c == '\\' {
        seq!['\\', '\\']
    } else if u == 0x08 {
        seq!['\\', 'b']
    } else if u == 0x09 {
        seq!['\\', 't']
    } else if u == 0x0A {
        seq!['\\', 'n']
    } else if u == 0x0C {
        seq!['\\', 'f']
    } else if u == 0x0D {
        seq!['\\', 'r']
    } else if u < 0x20 {
        seq!['\\', 'u', '0', '0', hex_digit(u / 16), hex_digit(u % 16)]
    } else {
        seq![c]
    }
}

/// The characters of `s`, each written as [`json_escape`] writes it.
pub open spec fn json_escaped(s: Seq<char>) -> Seq<char>
    decreases s.len(),
{
    if s.len() == 0 {
        Seq::empty()
    } else {
        json_escaped(s.drop_last()) + json_escape(s.last())
    }
}

/// The JSON string literal that `serde_json` writes for `s`: the escaped
/// characters between double quotes.
pub open spec fn json_quoted(s: Seq<char>) -> Seq<char> {
    seq!['"'] + json_escaped(s) + seq!['"']
}

/// The view of an optional owned string.
pub open spec fn opt_view(o: Option<String>) -> Option<Seq<char>> {
    match o {
        Some(s) => Some(s@),
        None => None,
    }
}

/// Parses `text` with `serde_json::from_str::<serde_json::Value>`, looks the value
/// up with `serde_json::Value::pointer`, and takes it with `Value::as_str`.
/// The contract claims only that the result is a function of `text` and `pointer`.
#[verifier::external_body]
pub(crate) fn str_at(text: &str, pointer: &str) -> (r: Option<String>)
    ensures
        opt_view(r) == json_str_at(text@, pointer@),
{
    match serde_json::from_str::<serde_json::Value>(text) {
        Ok(v) => match v.pointer(pointer) {
            Some(x) => x.as_str().map(String::from),
            None => None,
        },
        Err(_) => None,
    }
}

/// Parses `text` with `serde_json::from_str::<serde_json::Value>`, looks the value
/// up with `serde_json::Value::pointer`, and takes it with `Value::as_u64`.
/// The contract claims only that the result is a function of `text` and `pointer`.
#[verifier::external_body]
pub(crate) fn u64_at(text: &str, pointer: &str) -> (r: Option<u64>)
    ensures
        r == json_u64_at(text@, pointer@),
{
    match serde_json::from_str::<serde_json::Value>(text) {
        Ok(v) => match v.pointer(pointer) {
            Some(x) => x.as_u64(),
            None => None,
        },
        Err(_) => None,
    }
}

/// Parses `text` with `serde_json::from_str::<serde_json::Value>`, looks the value
/// up with `serde_json::Value::pointer`, and writes it back with `Value::to_string`
/// (compact JSON, the form its `Display` gives). The contract claims only that the
/// result is a function of `text` and `pointer`.
#[verifier::external_body]
pub(crate) fn text_at(text: &str, pointer: &str) -> (r: Option<String>)
    ensures
        opt_view(r) == json_text_at(text@, pointer@),
{
    match serde_json::from_str::<serde_json::Value>(text) {
        Ok(v) => match v.pointer(pointer) {
            Some(x) => Some(x.to_string()),
            None => None,
        },
        Err(_) => None,
    }
}

/// `serde_json::to_string` on a `str`: the quoted, escaped JSON string literal
/// (`format_escaped_str` with its `ESCAPE` table). Writing a `str` into a `Vec`
/// does not fail in `serde_json`.
#[verifier::external_body]
pub(crate) fn quote(s: &str) -> (r: String)
    ensures
        r@ == json_quoted(s@),
{
    match serde_json::to_string(s) {
        Ok(q) => q,
        Err(_) => String::new(),
    }
}

} // verus!
