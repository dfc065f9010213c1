//! JSON text framing: the few fixed documents this service writes, built from
//! string literals and JSON-quoted values.
use vstd::prelude::*;
use vstd::string::StringExecFns;

verus! {

/// Lower-case hexadecimal digit for `d < 16`.
pub open spec fn hex_char(d: nat) -> char {
    if d == 0 { '0' } else if d == 1 { '1' } else if d == 2 { '2' } else if d == 3 { '3' }
    else if d == 4 { '4' } else if d == 5 { '5' } else if d == 6 { '6' } else if d == 7 { '7' }
    else if d == 8 { '8' } else if d == 9 { '9' } else if d == 10 { 'a' } else if d == 11 { 'b' }
    else if d == 12 { 'c' } else if d == 13 { 'd' } else if d == 14 { 'e' } else { 'f' }
}

/// How one character stands inside a JSON string literal: quote, backslash
/// and control characters escaped (short forms where JSON has them, else
/// `\u00XX`), every other character as it is.
pub open spec fn escaped_char(c: char) -> Seq<char> {
    if c == '"' {
        seq!['\\', '"']
    } else if c == '\\' {
        seq!['\\', '\\']
    } else if c == '\u{8}' {
        seq!['\\', 'b']
    } else if c == '\t' {
        seq!['\\', 't']
    } else if c == '\n' {
        seq!['\\', 'n']
    } else if c == '\u{c}' {
        seq!['\\', 'f']
    } else if c == '\r' {
        seq!['\\', 'r']
    } else if (c as u32) < 0x20 {
        seq!['\\', 'u', '0', '0', hex_char((c as u32 / 16) as nat), hex_char((c as u32 % 16) as nat)]
    } else {
        seq![c]
    }
}

pub open spec fn escaped(s: Seq<char>) -> Seq<char>
    decreases s.len(),
{
    if s.len() == 0 {
        seq![]
    } else {
        escaped(s.drop_last()) + escaped_char(s.last())
    }
}

/// The JSON string literal for `s`.
pub open spec fn json_quoted(s: Seq<char>) -> Seq<char> {
    seq!['"'] + escaped(s) + seq!['"']
}

/// Relies on `serde_json::to_string` applied to a `str`: it writes the string
/// between quotes, escaping by its table (`"`, `\` and characters below
/// 0x20; short forms `\b \t \n \f \r`, else lower-case `\u00XX`).
/// Serialising a `str` only writes into a `Vec`, so that call does not fail.
#[verifier::external_body]
pub(crate) fn quote(s: &str) -> (r: String)
    ensures
        r@ == json_quoted(s@),
{
    match serde_json::to_string(s) {
        Ok(q) => q,
        Err(_) => String::new(),
    }
}

/// `{"message":<message>,"code":null}`
pub open spec fn error_body_spec(message: Seq<char>) -> Seq<char> {
    "{\"message\":"@ + json_quoted(message) + ",\"code\":null}"@
}

/// `{"ok":true,"accessToken":<token>}`
pub open spec fn success_body_spec(token: Seq<char>) -> Seq<char> {
    "{\"ok\":true,\"accessToken\":"@ + json_quoted(token) + "}"@
}

/// The error response document for a diagnostic message.
pub fn error_body(message: &str) -> (r: String)
    ensures
        r@ == error_body_spec(message@),
{
    let q = quote(message);
    let mut out = String::from_str("{\"message\":");
    out.append(q.as_str());
    out.append(",\"code\":null}");
    proof {
        reveal_strlit("{\"message\":");
        reveal_strlit(",\"code\":null}");
    }
    out
}

/// `{"operationName":<op>,"query":<query>,"variables":{"facebook_id":<id>}}`
pub open spec fn graphql_body_spec(op: Seq<char>, query: Seq<char>, facebook_id: Seq<char>) -> Seq<
    char,
> {
    "{\"operationName\":"@ + json_quoted(op) + ",\"query\":"@ + json_quoted(query)
        + ",\"variables\":{\"facebook_id\":"@ + json_quoted(facebook_id) + "}}"@
}

/// The success response document carrying a session token.
pub fn success_body(token: &str) -> (r: String)
    ensures
        r@ == success_body_spec(token@),
{
    let q = quote(token);
    let mut out = String::from_str("{\"ok\":true,\"accessToken\":");
    out.append(q.as_str());
    out.append("}");
    proof {
        reveal_strlit("{\"ok\":true,\"accessToken\":");
        reveal_strlit("}");
    }
    out
}

/// A GraphQL request document with one `facebook_id` variable.
pub fn graphql_body(op: &str, query: &str, facebook_id: &str) -> (r: String)
    ensures
        r@ == graphql_body_spec(op@, query@, facebook_id@),
{
    let op_q = quote(op);
    let query_q = quote(query);
    let id_q = quote(facebook_id);
    let mut out = String::from_str("{\"operationName\":");
    out.append(op_q.as_str());
    out.append(",\"query\":");
    out.append(query_q.as_str());
    out.append(",\"variables\":{\"facebook_id\":");
    out.append(id_q.as_str());
    out.append("}}");
    proof {
        reveal_strlit("{\"operationName\":");
        reveal_strlit(",\"query\":");
        reveal_strlit(",\"variables\":{\"facebook_id\":");
        reveal_strlit("}}");
    }
    out
}

} // verus!
