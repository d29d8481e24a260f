//! JSON encoding of strings and of objects with string values, done by
//! `serde_json`.

use vstd::prelude::*;

use crate::string_map::{keys_of, pairs_of};

verus! {

/// The lowercase hexadecimal digit of a value below 16.
pub open spec fn hex_digit(d: int) -> char {
    if d < 10 {
        (('0' as u32) + d) as char
    } else {
        (('a' as u32) + d - 10) as char
    }
}

/// How `serde_json` writes one character inside a string: `"` and `\`
/// escaped with a backslash, the control characters backspace, form feed,
/// line feed, carriage return and tab as `\b`, `\f`, `\n`, `\r`, `\t`,
/// the other characters below 0x20 as `\u00XX` (lowercase hex), and every
/// other character as itself.
pub open spec fn json_char_escape(c: char) -> Seq<char> {
    let n = c as u32;
    if c == '"' {
        seq!['\\', '"']
    } else if c == '\\' {
        seq!['\\', '\\']
    } else if n == 0x8 {
        seq!['\\', 'b']
    } else if n == 0xc {
        seq!['\\', 'f']
    } else if n == 0xa {
        seq!['\\', 'n']
    } else if n == 0xd {
        seq!['\\', 'r']
    } else if n == 0x9 {
        seq!['\\', 't']
    } else if n < 0x20 {
        seq!['\\', 'u', '0', '0', hex_digit((n / 16) as int), hex_digit((n % 16) as int)]
    } else {
        seq![c]
    }
}

/// The characters of `s`, each written as `serde_json` writes it inside a
/// string.
pub open spec fn json_escaped(s: Seq<char>) -> Seq<char>
    decreases s.len(),
{
    if s.len() == 0 {
        Seq::empty()
    } else {
        json_escaped(s.drop_last()) + json_char_escape(s.last())
    }
}

/// The JSON text of the string `s`: a quoted, escaped JSON string literal.
pub open spec fn json_string_of(s: Seq<char>) -> Seq<char> {
    seq!['"'] + json_escaped(s) + seq!['"']
}

/// `serde_json::Value::String(s).to_string()`: the JSON text of a string
/// value, in the compact form, escaped as `json_string_of` states.
#[verifier::external_body]
pub(crate) fn json_string(s: &str) -> (r: String)
    ensures
        r@ == json_string_of(s@),
{
    serde_json::Value::String(s.to_string()).to_string()
}

/// The JSON text of an object whose members are the given key/value pairs
/// (values as JSON strings), as `serde_json` writes it.
pub uninterp spec fn json_object_of(entries: Seq<(Seq<char>, Seq<char>)>) -> Seq<char>;

/// `serde_json::Value::Object(..).to_string()` on an object built from
/// `entries`, each value a JSON string. The text is named by
/// `json_object_of`; its layout is not stated.
#[verifier::external_body]
pub(crate) fn json_object(entries: &Vec<(String, String)>) -> (r: String)
    ensures
        r@ == json_object_of(pairs_of(entries@)),
{
    let object: serde_json::Map<String, serde_json::Value> = entries
        .iter()
        .map(|(k, v)| (k.clone(), serde_json::Value::String(v.clone())))
        .collect();
    serde_json::Value::Object(object).to_string()
}

/// The members of the JSON object in `s`, if `s` is a JSON object whose
/// values are all strings, in key order, as `serde_json` reads it.
pub uninterp spec fn string_object_of(s: Seq<char>) -> Option<Seq<(Seq<char>, Seq<char>)>>;

/// `serde_json::from_str::<BTreeMap<String, String>>(s)`: the members of a
/// JSON object with string values, or `None` when `s` is not one. The
/// result is named by `string_object_of`. Stated besides: no key comes
/// twice (the members come out of a map).
#[verifier::external_body]
pub(crate) fn parse_string_object(s: &str) -> (r: Option<Vec<(String, String)>>)
    ensures
        match r {
            Some(v) => string_object_of(s@) == Some(pairs_of(v@)) && keys_of(
                pairs_of(v@),
            ).no_duplicates(),
            None => string_object_of(s@) is None,
        },
{
    serde_json::from_str::<std::collections::BTreeMap<String, String>>(s).ok().map(
        |m| m.into_iter().collect(),
    )
}

} // verus!
