use std::collections::HashMap;

use streams_immudb::errors::TransportError;
use streams_immudb::link::Link;
use streams_immudb::transport::interpret_receive_response;
use streams_immudb::transport::interpret_send_response;
use streams_immudb::transport::send_request;
use streams_immudb::transport::Message;

fn sample_message() -> Message {
    Message {
        link: Link::new(b"chan".to_vec(), b"m1".to_vec()),
        body: b"test branch".to_vec(),
    }
}

#[test]
fn send_request_uses_link_key_and_encoded_body() {
    let req = send_request(&sample_message());
    assert_eq!(req.key, b"chanm1".to_vec());
    assert_eq!(
        req.body,
        "{\"setRequest\":{\"KVs\":[{\"key\":\"Y2hhbm0x\",\"value\":\"dGVzdCBicmFuY2g=\"}]}}"
    );
}

#[test]
fn send_request_is_deterministic_for_retry() {
    let first = send_request(&sample_message());
    let second = send_request(&sample_message());
    assert_eq!(first.key, second.key);
    assert_eq!(first.body, second.body);
}

#[test]
fn send_success_is_passed_through() {
    assert!(interpret_send_response(true, b"chanm1".to_vec()).is_ok());
}

#[test]
fn send_failure_carries_the_key() {
    match interpret_send_response(false, b"chanm1".to_vec()) {
        Err(TransportError::Send { key }) => assert_eq!(key, b"chanm1".to_vec()),
        other => panic!("expected a send error, got {other:?}"),
    }
}

#[test]
fn repeated_write_leaves_the_record_unchanged() {
    let mut store: HashMap<Vec<u8>, Vec<u8>> = HashMap::new();
    let req = send_request(&sample_message());
    store.insert(req.key.clone(), req.body.clone().into_bytes());
    let before = store.clone();
    let again = send_request(&sample_message());
    store.insert(again.key.clone(), again.body.clone().into_bytes());
    assert_eq!(store, before);
    assert!(interpret_send_response(true, again.key).is_ok());
}

#[test]
fn miss_is_not_found_never_a_decoded_payload() {
    let link = Link::new(b"chan".to_vec(), b"never-written".to_vec());
    match interpret_receive_response(false, "{\"value\":\"AA==\"}", &link) {
        Err(TransportError::NotFound) => {}
        other => panic!("expected a miss, got {other:?}"),
    }
}

#[test]
fn receive_decodes_the_stored_value() {
    let link = Link::new(b"chan".to_vec(), b"m1".to_vec());
    let msg = interpret_receive_response(true, "{\"value\":\"dGVzdCBicmFuY2g=\"}", &link)
        .expect("a stored record decodes");
    assert_eq!(msg.body, b"test branch".to_vec());
    assert_eq!(msg.link.to_key(), link.to_key());
}

#[test]
fn missing_field_is_a_protocol_mismatch() {
    let link = Link::new(b"chan".to_vec(), b"m1".to_vec());
    assert!(matches!(
        interpret_receive_response(true, "{}", &link),
        Err(TransportError::ProtocolMismatch)
    ));
}

#[test]
fn malformed_stored_value_is_a_decode_error() {
    let link = Link::new(b"chan".to_vec(), b"m1".to_vec());
    assert!(matches!(
        interpret_receive_response(true, "{\"value\":\"%%\"}", &link),
        Err(TransportError::Decode)
    ));
}

#[test]
fn dummy_transport_constructs() {
    let first = streams_immudb::stub::DummyTransport::new();
    let second = streams_immudb::stub::DummyTransport::new();
    assert_eq!(first, second);
}

#[test]
fn error_descriptions_are_distinct() {
    assert_eq!(TransportError::Auth.describe(), "authentication failed");
    assert_eq!(TransportError::NotFound.describe(), "record not found");
    assert_ne!(
        TransportError::Decode.describe(),
        TransportError::Timeout.describe()
    );
}
