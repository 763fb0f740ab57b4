//! The transport adapter: the two-operation capability the channel engine
//! needs, as pure request construction and response interpretation around
//! the HTTP exchange that the surrounding program performs.

use vstd::prelude::*;

use crate::codec::b64_of;
use crate::codec::decode;
use crate::errors::TransportError;
use crate::link::Link;
use crate::wire::get_request_body;
use crate::wire::get_request_json;
use crate::wire::json_value_field;
use crate::wire::read_value_field;
use crate::wire::set_request_body;
use crate::wire::set_request_json;

verus! {

/// One protocol message as the adapter sees it: an address and an opaque
/// binary body. The adapter never inspects the body's contents.
#[derive(Debug, Clone)]
pub struct Message {
    pub link: Link,
    pub body: Vec<u8>,
}

/// A verified-write request, ready to send: the store key it writes (kept
/// for error reporting) and the request body.
pub struct SendRequest {
    pub key: Vec<u8>,
    pub body: String,
}

/// Builds the verified-write request for a message: the key is the link's
/// canonical index, the value the text-safe encoding of the body, both
/// framed in the store's JSON shape.
pub fn send_request(msg: &Message) -> (r: SendRequest)
    ensures
        r.key@ == msg.link.key(),
        r.body@ == set_request_json(msg.link.key(), msg.body@),
{
    let key = msg.link.to_key();
    let body = set_request_body(key.as_slice(), msg.body.as_slice());
    SendRequest { key, body }
}

/// Interprets the store's answer to a verified write. Success is passed
/// through; a rejected write carries the key, so the caller can tell
/// "failed to persist" from a protocol-level rejection and retry the very
/// same request. The adapter itself never retries.
pub fn interpret_send_response(status_success: bool, key: Vec<u8>) -> (r: Result<
    (),
    TransportError,
>)
    ensures
        status_success <==> r is Ok,
        !status_success ==> (r matches Err(TransportError::Send { key: k }) && k@ == key@),
{
    if status_success {
        Ok(())
    } else {
        Err(TransportError::Send { key })
    }
}

/// Builds the verified-read request for a link's store key.
pub fn receive_request(link: &Link) -> (r: String)
    ensures
        r@ == get_request_json(link.key()),
{
    let key = link.to_key();
    get_request_body(key.as_slice())
}

/// Interprets the store's answer to a verified read.
///
/// A non-success status is a miss: `NotFound`, never a decoded empty
/// payload. On a success status the response must carry the one expected
/// field; its absence is a `ProtocolMismatch`, not a miss. A present field
/// that is not well-formed text-safe data is a `Decode` failure, never
/// coerced to an empty body. Otherwise the decoded bytes are wrapped as a
/// message addressed at the link that was asked for (the true predecessor
/// address of the stored message is not recoverable from the store).
pub fn interpret_receive_response(status_success: bool, response_body: &str, link: &Link) -> (r:
    Result<Message, TransportError>)
    ensures
        !status_success ==> (r matches Err(TransportError::NotFound)),
        r is Ok ==> status_success && json_value_field(response_body@) is Some,
        status_success && json_value_field(response_body@) is None ==> (r matches Err(
            TransportError::ProtocolMismatch,
        )),
        forall|b: Seq<u8>|
            status_success && json_value_field(response_body@) == Some(b64_of(b)) ==> r is Ok
                && r->Ok_0.body@ == b,
        r matches Ok(m) ==> m.link.app_inst@ == link.app_inst@ && m.link.msg_id@ == link.msg_id@,
        r matches Err(e) ==> (e is NotFound || e is ProtocolMismatch || e is Decode),
    {
    if !status_success {
        return Err(TransportError::NotFound);
    }
    match read_value_field(response_body) {
        None => Err(TransportError::ProtocolMismatch),
        Some(text) => match decode(text.as_str()) {
            Err(_) => Err(TransportError::Decode),
            Ok(bytes) => Ok(Message { link: link.clone(), body: bytes }),
        },
    }
}

/// A model of the store that the adapter writes through: the verified-set
/// operation binds a key to a value.
pub open spec fn store_set(
    store: Map<Seq<u8>, Seq<u8>>,
    key: Seq<u8>,
    value: Seq<u8>,
) -> Map<Seq<u8>, Seq<u8>> {
    store.insert(key, value)
}

/// What a verified read returns from the modelled store.
pub open spec fn store_get(store: Map<Seq<u8>, Seq<u8>>, key: Seq<u8>) -> Option<Seq<u8>> {
    if store.dom().contains(key) {
        Some(store[key])
    } else {
        None
    }
}

/// Writes are idempotent: re-asserting the same key/value pair leaves the
/// store exactly as it was after the first write, so a caller may retry a
/// send verbatim.
pub proof fn lemma_idempotent_write(store: Map<Seq<u8>, Seq<u8>>, key: Seq<u8>, value: Seq<u8>)
    ensures
        store_set(store_set(store, key, value), key, value) == store_set(store, key, value),
{
    assert(store_set(store_set(store, key, value), key, value) =~= store_set(store, key, value));
}

/// The store after a sequence of writes: the first `n` of the given
/// key/value pairs written in order.
pub open spec fn store_after_writes(
    store: Map<Seq<u8>, Seq<u8>>,
    keys: Seq<Seq<u8>>,
    values: Seq<Seq<u8>>,
    n: int,
) -> Map<Seq<u8>, Seq<u8>>
    decreases n,
{
    if n <= 0 {
        store
    } else {
        store_set(store_after_writes(store, keys, values, n - 1), keys[n - 1], values[n - 1])
    }
}

proof fn lemma_read_back_one(
    store: Map<Seq<u8>, Seq<u8>>,
    keys: Seq<Seq<u8>>,
    values: Seq<Seq<u8>>,
    n: int,
    i: int,
)
    requires
        keys.len() == values.len(),
        n <= keys.len(),
        0 <= i < n,
        forall|j: int, k: int|
            0 <= j < keys.len() && 0 <= k < keys.len() && j != k ==> keys[j] != keys[k],
    ensures
        store_get(store_after_writes(store, keys, values, n), keys[i]) == Some(values[i]),
    decreases n,
{
    if i < n - 1 {
        assert(keys[i] != keys[n - 1]);
        lemma_read_back_one(store, keys, values, n - 1, i);
    }
}

/// Ordering is kept by the store: after a chain of messages is written,
/// one per key, reading the keys back in publication order yields exactly
/// the published values in that order — provided the keys are distinct,
/// which distinct links within one channel guarantee.
pub proof fn lemma_writes_read_back_in_order(
    store: Map<Seq<u8>, Seq<u8>>,
    keys: Seq<Seq<u8>>,
    values: Seq<Seq<u8>>,
)
    requires
        keys.len() == values.len(),
        forall|j: int, k: int|
            0 <= j < keys.len() && 0 <= k < keys.len() && j != k ==> keys[j] != keys[k],
    ensures
        forall|i: int|
            0 <= i < keys.len() ==> store_get(
                store_after_writes(store, keys, values, keys.len() as int),
                keys[i],
            ) == Some(values[i]),
{
    assert forall|i: int| 0 <= i < keys.len() implies store_get(
        store_after_writes(store, keys, values, keys.len() as int),
        keys[i],
    ) == Some(values[i]) by {
        lemma_read_back_one(store, keys, values, keys.len() as int, i);
    }
}

/// A read sees exactly what was last written at its key: the record just
/// written comes back, and every other key is untouched by the write.
pub proof fn lemma_read_after_write(
    store: Map<Seq<u8>, Seq<u8>>,
    key: Seq<u8>,
    value: Seq<u8>,
    other: Seq<u8>,
)
    ensures
        store_get(store_set(store, key, value), key) == Some(value),
        other != key ==> store_get(store_set(store, key, value), other) == store_get(store, other),
{
}

} // verus!
