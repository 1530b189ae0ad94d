use vstd::prelude::*;
use vstd::string::*;

verus! {

/// The lower-case hexadecimal digit of `d`.
pub open spec fn hex_digit(d: nat) -> char
    recommends
        d < 16,
{
    seq!['0', '1', '2', '3', '4', '5', '6', '7', '8', '9', 'a', 'b', 'c', 'd', 'e', 'f'][d as int]
}

/// How serde_json writes one character inside a string literal: `"` and `\`
/// after a backslash; backspace, tab, line feed, form feed and carriage return
/// as `\b`, `\t`, `\n`, `\f`, `\r`; any other character below U+0020 as
/// `\u00` and two lower-case hexadecimal digits; every other character as
/// itself.
pub open spec fn json_char(c: char) -> Seq<char> {
    let n = c as u32;
    if c == '"' {
        seq!['\\', '"']
    } else if c == '\\' {
        seq!['\\', '\\']
    } else if n == 8 {
        seq!['\\', 'b']
    } else if n == 9 {
        seq!['\\', 't']
    } else if n == 10 {
        seq!['\\', 'n']
    } else if n == 12 {
        seq!['\\', 'f']
    } else if n == 13 {
        seq!['\\', 'r']
    } else if n < 32 {
        seq!['\\', 'u', '0', '0', hex_digit((n / 16) as nat), hex_digit((n % 16) as nat)]
    } else {
        seq![c]
    }
}

/// The escaped characters of a text, in order.
pub open spec fn json_escaped(s: Seq<char>) -> Seq<char>
    decreases s.len(),
{
    if s.len() == 0 {
        Seq::empty()
    } else {
        json_escaped(s.drop_last()) + json_char(s.last())
    }
}

/// The JSON string literal of a text: its escaped characters in double quotes.
pub open spec fn json_string(s: Seq<char>) -> Seq<char> {
    seq!['"'] + json_escaped(s) + seq!['"']
}

/// Relies on `serde_json::to_string` on a `str`: the JSON string literal of
/// the text, escaped as `json_char` says. Writing a string into memory does
/// not fail; the empty text stands for the error it never returns.
#[verifier::external_body]
fn quote(s: &str) -> (r: String)
    ensures
        r@ == json_string(s@),
{
    serde_json::to_string(s).unwrap_or_default()
}

/// Appends the JSON string literal of `s` to `out`.
pub fn push_json_string(out: &mut String, s: &str)
    ensures
        final(out)@ == old(out)@ + json_string(s@),
{
    let q = quote(s);
    out.append(q.as_str());
}

/// `{"identity":<identity>,"password":<secret>}`, each value a JSON string.
pub open spec fn password_body(identity: Seq<char>, secret: Seq<char>) -> Seq<char> {
    "{\"identity\":"@ + json_string(identity) + ",\"password\":"@ + json_string(secret) + "}"@
}

/// The JSON body of a password authentication.
pub fn password_body_text(identity: &str, secret: &str) -> (r: String)
    ensures
        r@ == password_body(identity@, secret@),
{
    let mut out = String::from_str("{\"identity\":");
    push_json_string(&mut out, identity);
    out.append(",\"password\":");
    push_json_string(&mut out, secret);
    out.append("}");
    out
}

} // verus!
