use sqlite_wasm_uuid_rs::codec::{
    decode, decode_blob, decode_text, encode_buffer, encode_text, BlobUuid, Value,
};
use sqlite_wasm_uuid_rs::identifier::Identifier;

fn text(s: &str) -> Value {
    Value::Text(String::from(s))
}

const SAMPLE_BYTES: [u8; 16] = [
    0x12, 0x34, 0x56, 0x78, 0x12, 0x34, 0x12, 0x34, 0x12, 0x34, 0x12, 0x34, 0x56, 0x78, 0x9a, 0xbc,
];

#[test]
fn decodes_hyphenated_text_to_exact_bytes() {
    let id = decode_text("12345678-1234-1234-1234-123456789abc").unwrap();
    assert_eq!(id.into_bytes(), SAMPLE_BYTES);
}

#[test]
fn decodes_plain_hex_text() {
    let id = decode_text("12345678123412341234123456789ABC").unwrap();
    assert_eq!(id.into_bytes(), SAMPLE_BYTES);
}

#[test]
fn encodes_text_lowercase_hyphenated() {
    let id = Identifier::from_bytes([
        0xde, 0xad, 0xbe, 0xef, 0x00, 0x01, 0x4a, 0xbc, 0x8f, 0x00, 0x0a, 0x0b, 0x0c, 0x0d, 0x0e, 0xff,
    ]);
    assert_eq!(encode_text(id), "deadbeef-0001-4abc-8f00-0a0b0c0d0eff");
}

#[test]
fn uppercase_text_round_trips_to_lowercase() {
    let id = decode(&text("ABCDEF01-2345-6789-ABCD-EF0123456789")).unwrap();
    assert_eq!(encode_text(id), "abcdef01-2345-6789-abcd-ef0123456789");
}

#[test]
fn plain_text_round_trips_to_hyphenated() {
    let id = decode(&text("ABCDEF0123456789abcdef0123456789")).unwrap();
    assert_eq!(encode_text(id), "abcdef01-2345-6789-abcd-ef0123456789");
}

#[test]
fn buffer_round_trips_exactly() {
    let b: Vec<u8> = (0u8..16).map(|i| i * 17).collect();
    let id = decode(&Value::Blob(b.clone())).unwrap();
    assert_eq!(encode_buffer(id), b);
}

#[test]
fn zero_text_to_buffer_and_back() {
    let zero = "00000000-0000-0000-0000-000000000000";
    let id = decode(&text(zero)).unwrap();
    let buf = encode_buffer(id);
    assert_eq!(buf, vec![0u8; 16]);
    let back = decode(&Value::Blob(buf)).unwrap();
    assert_eq!(encode_text(back), zero);
}

#[test]
fn sample_text_to_buffer_and_back() {
    let input = "12345678-1234-1234-1234-123456789abc";
    let buf = encode_buffer(decode(&text(input)).unwrap());
    assert_eq!(buf, SAMPLE_BYTES.to_vec());
    let back = decode(&Value::Blob(buf)).unwrap();
    assert_eq!(encode_text(back), input);
}

#[test]
fn rejects_text_of_35_characters() {
    assert!(decode(&text("12345678-1234-1234-1234-123456789ab")).is_none());
}

#[test]
fn rejects_buffer_of_17_bytes() {
    assert!(decode(&Value::Blob(vec![0u8; 17])).is_none());
    assert!(decode_blob(&[0u8; 15]).is_none());
    assert!(decode_blob(&[]).is_none());
}

#[test]
fn rejects_null_and_other_values() {
    assert!(decode(&Value::Null).is_none());
    assert!(decode(&Value::Other).is_none());
}

#[test]
fn rejects_non_hex_text() {
    assert!(decode(&text("1234567g-1234-1234-1234-123456789abc")).is_none());
    assert!(decode(&text("zzzzzzzzzzzzzzzzzzzzzzzzzzzzzzzz")).is_none());
    assert!(decode(&text("hello")).is_none());
    assert!(decode(&text("")).is_none());
}

#[test]
fn rejects_misplaced_hyphens() {
    assert!(decode(&text("123456781-234-1234-1234-123456789abc")).is_none());
    assert!(decode(&text("12345678-1234-1234-1234-123456789-bc")).is_none());
}

#[test]
fn rejects_braced_and_urn_forms() {
    assert!(decode(&text("{12345678-1234-1234-1234-123456789abc}")).is_none());
    assert!(decode(&text("urn:uuid:12345678-1234-1234-1234-123456789abc")).is_none());
}

#[test]
fn rejects_non_ascii_text_of_accepted_length() {
    assert!(decode(&text("é2345678-1234-1234-1234-123456789abc")).is_none());
    assert!(decode(&text("é234567812341234123412345678900a")).is_none());
}

#[test]
fn blob_uuid_reads_and_writes_sixteen_bytes() {
    let b = BlobUuid::from_blob(&SAMPLE_BYTES).unwrap();
    assert_eq!(b.to_blob(), SAMPLE_BYTES.to_vec());
    let id: Identifier = Identifier::from(b);
    assert_eq!(id.into_bytes(), SAMPLE_BYTES);
    let again = BlobUuid::from(id);
    assert_eq!(again.0.into_bytes(), SAMPLE_BYTES);
    assert!(BlobUuid::from_blob(&[1u8, 2, 3]).is_none());
}

#[test]
fn canonical_text_decodes_to_same_bytes() {
    let id = Identifier::from_bytes([
        0xff, 0x00, 0x10, 0x0f, 0xa5, 0x5a, 0x7c, 0xc7, 0x80, 0x08, 0x99, 0x01, 0x23, 0x45, 0x67, 0x89,
    ]);
    let t = encode_text(id);
    assert_eq!(t, "ff00100f-a55a-7cc7-8008-990123456789");
    assert_eq!(decode_text(&t).unwrap().into_bytes(), id.into_bytes());
}
