//! The hook decodes documents with the host's canonical codec; a malformed
//! payload is a terminal error, and the aggregate update never starts.

use junobuild_utils::{decode_doc_data, encode_doc_data};

#[test]
fn malformed_payload_is_a_decode_error() {
    let malformed: &[u8] = b"not a document";
    let decoded = decode_doc_data::<u32>(malformed);
    assert!(decoded.is_err());

    let mismatched: &[u8] = b"\"a string, not a number\"";
    let decoded = decode_doc_data::<u32>(mismatched);
    assert!(decoded.is_err());
}

#[test]
fn canonical_codec_round_trips() {
    let encoded = encode_doc_data(&7u32).unwrap();
    let decoded: u32 = decode_doc_data(&encoded).unwrap();
    assert_eq!(decoded, 7);
}
