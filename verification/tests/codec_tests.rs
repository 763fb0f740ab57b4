use streams_immudb::codec::decode;
use streams_immudb::codec::decode_of_encode;
use streams_immudb::codec::encode;
use streams_immudb::errors::TransportError;

#[test]
fn encode_known_value() {
    assert_eq!(encode(b"immudb"), "aW1tdWRi");
}

#[test]
fn encode_empty_is_empty() {
    assert_eq!(encode(b""), "");
}

#[test]
fn decode_known_value() {
    assert_eq!(decode("dGVzdCBicmFuY2g=").unwrap(), b"test branch".to_vec());
}

#[test]
fn decode_empty_gives_empty() {
    assert_eq!(decode("").unwrap(), Vec::<u8>::new());
}

#[test]
fn decode_rejects_malformed_input() {
    assert!(matches!(decode("%%%"), Err(TransportError::Decode)));
}

#[test]
fn decode_never_coerces_malformed_to_empty() {
    assert!(decode("A").is_err());
}

#[test]
fn round_trip_empty() {
    assert_eq!(decode_of_encode(b""), Vec::<u8>::new());
}

#[test]
fn round_trip_all_byte_values() {
    let data: Vec<u8> = (0u8..=255).collect();
    assert_eq!(decode(&encode(&data)).unwrap(), data);
    assert_eq!(decode_of_encode(&data), data);
}

#[test]
fn round_trip_every_padding_length() {
    for n in 0..10usize {
        let data: Vec<u8> = (0..n).map(|i| (i * 37 + 5) as u8).collect();
        assert_eq!(decode_of_encode(&data), data);
    }
}
