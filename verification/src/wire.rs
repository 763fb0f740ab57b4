//! The store's wire protocol: the exact JSON request bodies the adapter
//! sends, and the reading of the one response field it consumes.
//!
//! Keys, values and credentials travel text-safe encoded inside JSON text.
//! The encoded alphabet needs no JSON escaping, so the bodies are built
//! here, character for character, and their contracts state the full text.

use vstd::prelude::*;
use vstd::string::StringExecFns;

use crate::codec::b64_of;
use crate::codec::encode;

verus! {

/// The body of a login request: both credentials text-safe encoded.
pub open spec fn login_json(user: Seq<u8>, password: Seq<u8>) -> Seq<char> {
    "{\"user\":\""@ + b64_of(user) + "\",\"password\":\""@ + b64_of(password) + "\"}"@
}

/// The body of a verified-write request for one key/value pair.
pub open spec fn set_request_json(key: Seq<u8>, value: Seq<u8>) -> Seq<char> {
    "{\"setRequest\":{\"KVs\":[{\"key\":\""@ + b64_of(key) + "\",\"value\":\""@ + b64_of(
        value,
    ) + "\"}]}}"@
}

/// The body of a verified-read request for one key.
pub open spec fn get_request_json(key: Seq<u8>) -> Seq<char> {
    "{\"keyRequest\":{\"key\":\""@ + b64_of(key) + "\"}}"@
}

pub fn login_request_body(user: &[u8], password: &[u8]) -> (r: String)
    ensures
        r@ == login_json(user@, password@),
{
    let mut body = String::from_str("{\"user\":\"");
    body.append(encode(user).as_str());
    body.append("\",\"password\":\"");
    body.append(encode(password).as_str());
    body.append("\"}");
    body
}

pub fn set_request_body(key: &[u8], value: &[u8]) -> (r: String)
    ensures
        r@ == set_request_json(key@, value@),
{
    let mut body = String::from_str("{\"setRequest\":{\"KVs\":[{\"key\":\"");
    body.append(encode(key).as_str());
    body.append("\",\"value\":\"");
    body.append(encode(value).as_str());
    body.append("\"}]}}");
    body
}

pub fn get_request_body(key: &[u8]) -> (r: String)
    ensures
        r@ == get_request_json(key@),
{
    let mut body = String::from_str("{\"keyRequest\":{\"key\":\"");
    body.append(encode(key).as_str());
    body.append("\"}}");
    body
}

/// The `value` field of a JSON document: `Some` exactly when the text is a
/// well-formed JSON object whose top-level `value` member is a string, and
/// then the characters of that string. Left uninterpreted; a function of
/// the text alone.
pub uninterp spec fn json_value_field(body: Seq<char>) -> Option<Seq<char>>;

/// Relies on `serde_json::from_str`, `serde_json::Value::get` and
/// `serde_json::Value::as_str`, composed: parsing is deterministic, `get`
/// looks the member up by name, and `as_str` yields the member's characters
/// exactly when it is a string. Their composition reads the one response
/// field the adapter consumes.
#[verifier::external_body]
pub fn read_value_field(body: &str) -> (r: Option<String>)
    ensures
        r matches Some(s) ==> json_value_field(body@) == Some(s@),
        r is None ==> json_value_field(body@) is None,
{
    let parsed: serde_json::Value = match serde_json::from_str(body) {
        Ok(v) => v,
        Err(_) => {
            return None;
        },
    };
    match parsed.get("value") {
        Some(field) => match field.as_str() {
            Some(s) => Some(s.to_string()),
            None => None,
        },
        None => None,
    }
}

} // verus!
