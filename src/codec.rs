//! Decoding host values into identifiers, and encoding identifiers as text
//! or as a 16-byte buffer.
use vstd::prelude::*;
use vstd::string::*;
use crate::identifier::{Identifier, option_view};
use crate::text::{
    canonical_text, decode_text_spec, digits_of, hyphens_in_place, is_hex_char,
    is_identifier_text, lemma_text_round_trip, normalize, text_bytes,
};

verus! {

/// A dynamically typed value handed over by the host database.
pub enum Value {
    /// SQL `NULL`, or a missing argument.
    Null,
    /// A number, or any other value that is neither text nor a buffer.
    Other,
    /// A text value.
    Text(String),
    /// A raw byte buffer.
    Blob(Vec<u8>),
}

/// What decoding a buffer yields: the buffer itself if it has 16 bytes.
pub open spec fn decode_blob_spec(b: Seq<u8>) -> Option<Seq<u8>> {
    if b.len() == 16 {
        Some(b)
    } else {
        None
    }
}

/// What decoding a host value yields: a text or a buffer in an accepted
/// encoding gives the identifier's bytes; anything else gives nothing.
pub open spec fn decode_spec(v: Value) -> Option<Seq<u8>> {
    match v {
        Value::Text(s) => decode_text_spec(s@),
        Value::Blob(b) => decode_blob_spec(b@),
        _ => None,
    }
}

/// Relies on `uuid::Uuid::parse_str`: a text of 32 or 36 characters is
/// accepted exactly when it is 32 hex digits, or the hyphenated 8-4-4-4-12
/// form; byte `j` of the result is the digit pair `2j`, `2j + 1`.
#[verifier::external_body]
fn parse_uuid_text(s: &str) -> (r: Option<[u8; 16]>)
    requires
        s@.len() == 32 || s@.len() == 36,
    ensures
        r is Some <==> is_identifier_text(s@),
        r is Some ==> r->0@ == text_bytes(s@),
{
    match uuid::Uuid::parse_str(s) {
        Ok(u) => Some(u.into_bytes()),
        Err(_) => None,
    }
}

/// Relies on the `Display` impl of `uuid::Uuid`: the hyphenated lowercase
/// form, two digits per byte, high nibble first.
#[verifier::external_body]
fn format_uuid(b: [u8; 16]) -> (r: String)
    ensures
        r@ == canonical_text(b@),
{
    uuid::Uuid::from_bytes(b).to_string()
}

/// Decodes a text: 32 hex digits, or the 36-character hyphenated form,
/// in either case. Any other text gives `None`.
pub fn decode_text(s: &str) -> (r: Option<Identifier>)
    ensures
        option_view(r) == decode_text_spec(s@),
{
    let n = s.unicode_len();
    if n == 32 || n == 36 {
        match parse_uuid_text(s) {
            Some(b) => Some(Identifier::from_bytes(b)),
            None => None,
        }
    } else {
        None
    }
}

/// Decodes a raw buffer: exactly 16 bytes, taken as they stand.
pub fn decode_blob(b: &[u8]) -> (r: Option<Identifier>)
    ensures
        option_view(r) == decode_blob_spec(b@),
{
    if b.len() == 16 {
        let a: [u8; 16] = [
            b[0], b[1], b[2], b[3], b[4], b[5], b[6], b[7],
            b[8], b[9], b[10], b[11], b[12], b[13], b[14], b[15],
        ];
        assert(a@ =~= b@);
        Some(Identifier::from_bytes(a))
    } else {
        None
    }
}

/// Decodes a host value; only a text or a buffer in an accepted encoding
/// gives an identifier.
pub fn decode(v: &Value) -> (r: Option<Identifier>)
    ensures
        option_view(r) == decode_spec(*v),
{
    match v {
        Value::Text(s) => decode_text(s.as_str()),
        Value::Blob(b) => decode_blob(b.as_slice()),
        _ => None,
    }
}

/// The canonical 36-character lowercase hyphenated text of `id`.
pub fn encode_text(id: Identifier) -> (r: String)
    ensures
        r@ == canonical_text(id@),
{
    format_uuid(id.into_bytes())
}

/// The 16 big-endian bytes of `id`.
pub fn encode_buffer(id: Identifier) -> (r: Vec<u8>)
    ensures
        r@ == id@,
{
    let b = id.into_bytes();
    let mut r: Vec<u8> = Vec::with_capacity(16);
    let mut i: usize = 0;
    while i < 16
        invariant
            i <= 16,
            b@.len() == 16,
            r@ == b@.subrange(0, i as int),
        decreases 16 - i,
    {
        r.push(b[i]);
        i += 1;
    }
    assert(r@ =~= b@);
    r
}

/// An identifier kept in a buffer column: it is read from and written as
/// its 16 bytes.
#[derive(Clone, Copy, Debug)]
pub struct BlobUuid(pub Identifier);

impl From<Identifier> for BlobUuid {
    fn from(u: Identifier) -> BlobUuid {
        BlobUuid(u)
    }
}

impl vstd::std_specs::convert::FromSpecImpl<Identifier> for BlobUuid {
    open spec fn obeys_from_spec() -> bool {
        true
    }

    open spec fn from_spec(v: Identifier) -> BlobUuid {
        BlobUuid(v)
    }
}

impl From<BlobUuid> for Identifier {
    fn from(b: BlobUuid) -> Identifier {
        b.0
    }
}

impl vstd::std_specs::convert::FromSpecImpl<BlobUuid> for Identifier {
    open spec fn obeys_from_spec() -> bool {
        true
    }

    open spec fn from_spec(v: BlobUuid) -> Identifier {
        v.0
    }
}

impl BlobUuid {
    /// Reads a column value: exactly 16 bytes, else `None`.
    pub fn from_blob(bytes: &[u8]) -> (r: Option<BlobUuid>)
        ensures
            r is Some <==> bytes@.len() == 16,
            r is Some ==> r.unwrap().0@ == bytes@,
    {
        match decode_blob(bytes) {
            Some(id) => Some(BlobUuid(id)),
            None => None,
        }
    }

    /// The column value: the identifier's 16 bytes.
    pub fn to_blob(&self) -> (r: Vec<u8>)
        ensures
            r@ == self.0@,
    {
        encode_buffer(self.0)
    }
}

/// Decoding a 16-byte buffer gives the identifier with exactly those bytes,
/// so encoding it as a buffer gives the buffer back.
pub proof fn lemma_buffer_round_trip(b: Seq<u8>)
    requires
        b.len() == 16,
    ensures
        decode_blob_spec(b) == Some(b),
{
}

/// An accepted text decoded, encoded as a buffer, and that buffer decoded
/// and encoded as text, gives the text in canonical shape.
pub proof fn lemma_text_buffer_text(t: Seq<char>)
    requires
        is_identifier_text(t),
    ensures
        decode_text_spec(t) == Some(text_bytes(t)),
        decode_blob_spec(text_bytes(t)) == Some(text_bytes(t)),
        canonical_text(text_bytes(t)) == normalize(t),
{
    lemma_text_round_trip(t);
}

/// Decoding gives nothing for a text of 35 characters, a buffer of 17
/// bytes, a null value, and a text holding a character that is neither a
/// hex digit nor a hyphen.
pub proof fn lemma_decode_rejects(t: Seq<char>, b: Seq<u8>)
    ensures
        t.len() == 35 ==> decode_text_spec(t) is None,
        b.len() == 17 ==> decode_blob_spec(b) is None,
        decode_spec(Value::Null) is None,
        (exists|i: int| 0 <= i < t.len() && !is_hex_char(#[trigger] t[i]) && t[i] != '-')
            ==> decode_text_spec(t) is None,
{
    if exists|i: int| 0 <= i < t.len() && !is_hex_char(#[trigger] t[i]) && t[i] != '-' {
        let i = choose|i: int| 0 <= i < t.len() && !is_hex_char(#[trigger] t[i]) && t[i] != '-';
        if is_identifier_text(t) {
            let d = digits_of(t);
            if t.len() == 32 {
                assert(is_hex_char(d[i]));
            } else {
                assert(hyphens_in_place(t));
                let k = if i < 8 {
                    i
                } else if i < 13 {
                    i - 1
                } else if i < 18 {
                    i - 2
                } else if i < 23 {
                    i - 3
                } else {
                    i - 4
                };
                assert(d[k] == t[i]);
                assert(is_hex_char(d[k]));
            }
        }
    }
}

} // verus!
