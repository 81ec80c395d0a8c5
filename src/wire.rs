use crate::cli::{command_from_name, command_named, Command};
use vstd::prelude::*;

verus! {

/// The text of the JSON string that `b` holds, when `b` is exactly one JSON
/// string value (whitespace around it allowed); `None` for anything else.
pub uninterp spec fn json_string_value(b: Seq<u8>) -> Option<Seq<char>>;

/// Relies on `serde_json::from_slice::<String>`: it succeeds exactly when the
/// bytes are one JSON string, with the string's text, and fails on no input.
#[verifier::external_body]
fn parse_json_string(b: &[u8]) -> (r: Option<String>)
    ensures
        r is None <==> json_string_value(b@) is None,
        r is Some ==> json_string_value(b@) == Some(r->0@),
        b@.len() == 0 ==> r is None,
{
    serde_json::from_slice::<String>(b).ok()
}

/// Relies on `serde_json::to_vec` on a `str`: one JSON string with the same
/// text, which `serde_json` parses back to that text. Writing into a `Vec`
/// cannot fail, so neither can the call.
#[verifier::external_body]
fn json_of_str(s: &str) -> (r: Vec<u8>)
    ensures
        json_string_value(r@) == Some(s@),
{
    serde_json::to_vec(s).unwrap()
}

/// The command that a request's bytes encode, if they encode one.
pub open spec fn command_of_bytes(b: Seq<u8>) -> Option<Command> {
    match json_string_value(b) {
        Some(t) => command_named(t),
        None => None,
    }
}

/// Decodes one request: a JSON string holding a command's tag. Anything else,
/// an empty request included, is malformed and gives `None`.
pub fn decode_command(b: &[u8]) -> (r: Option<Command>)
    ensures
        r == command_of_bytes(b@),
        b@.len() == 0 ==> r is None,
{
    match parse_json_string(b) {
        Some(t) => command_from_name(&t),
        None => None,
    }
}

/// Encodes a command as a request: its tag as a JSON string.
pub fn encode_command(c: Command) -> (r: Vec<u8>)
    ensures
        json_string_value(r@) == Some(c.tag()),
{
    json_of_str(c.wire_name())
}

/// Whatever bytes carry a command's tag as a JSON string, such as those that
/// `encode_command` gives, decode to that command.
pub proof fn encoded_command_decodes(c: Command, b: Seq<u8>)
    requires
        json_string_value(b) == Some(c.tag()),
    ensures
        command_of_bytes(b) == Some(c),
{
    crate::cli::tag_names_command(c);
}

} // verus!
