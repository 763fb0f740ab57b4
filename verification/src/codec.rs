//! Text-safe binary encoding for values moved through the store's JSON
//! transport, and the round-trip guarantee that makes it lossless.

use vstd::prelude::*;

use crate::errors::TransportError;

verus! {

/// The text-safe form of a byte string: what the standard, padded base64
/// alphabet makes of it. Left uninterpreted; the encoder below is the only
/// source of values of this shape, and the decoder inverts it.
pub uninterp spec fn b64_of(b: Seq<u8>) -> Seq<char>;

/// Relies on `base64::encode` (standard alphabet, padded): the output is a
/// function of the input bytes alone.
#[verifier::external_body]
pub fn encode(data: &[u8]) -> (r: String)
    ensures
        r@ == b64_of(data@),
{
    base64::encode(data)
}

/// Relies on `base64::decode` (standard alphabet): decoding inverts
/// `base64::encode`, and malformed input is reported, never coerced to an
/// empty or default value.
#[verifier::external_body]
pub fn decode(text: &str) -> (r: Result<Vec<u8>, TransportError>)
    ensures
        forall|b: Seq<u8>| text@ == b64_of(b) ==> r is Ok && r->Ok_0@ == b,
{
    match base64::decode(text) {
        Ok(v) => Ok(v),
        Err(_) => Err(TransportError::Decode),
    }
}

/// The encoding is lossless: decoding what was encoded gives the original
/// bytes back, for every byte string, the empty one included.
pub fn decode_of_encode(data: &[u8]) -> (r: Vec<u8>)
    ensures
        r@ == data@,
{
    let text = encode(data);
    let back = decode(text.as_str());
    match back {
        Ok(v) => v,
        Err(_) => unreached(),
    }
}

} // verus!
