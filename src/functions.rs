//! The SQL scalar functions: what each returns for its arguments.
//!
//! `None` stands for an SQL `NULL` result. The functions that take a slice
//! are registered under two arities: with no argument they generate a
//! fresh identifier, with one they decode and re-encode it.
use vstd::prelude::*;
use crate::codec::{decode, decode_spec, encode_buffer, encode_text, Value};
use crate::generate::{generate_ordered, generate_random};
use crate::identifier::{is_ordered_scheme, is_random_scheme};
use crate::text::canonical_text;

verus! {

/// The text of an optional text result.
pub open spec fn option_text(r: Option<String>) -> Option<Seq<char>> {
    match r {
        Some(s) => Some(s@),
        None => None,
    }
}

/// The bytes of an optional buffer result.
pub open spec fn option_bytes(r: Option<Vec<u8>>) -> Option<Seq<u8>> {
    match r {
        Some(b) => Some(b@),
        None => None,
    }
}

/// The canonical text of what a value decodes to, if anything.
pub open spec fn decode_to_text_spec(v: Value) -> Option<Seq<char>> {
    match decode_spec(v) {
        Some(b) => Some(canonical_text(b)),
        None => None,
    }
}

/// `uuid()`: the canonical text of a fresh random identifier.
pub fn uuid_func() -> (r: String)
    ensures
        exists|b: Seq<u8>| is_random_scheme(b) && r@ == #[trigger] canonical_text(b),
{
    let id = generate_random();
    encode_text(id)
}

/// `uuid7()`: the canonical text of a fresh time-ordered identifier.
pub fn uuid7_func() -> (r: String)
    ensures
        exists|b: Seq<u8>| is_ordered_scheme(b) && r@ == #[trigger] canonical_text(b),
{
    let id = generate_ordered();
    encode_text(id)
}

/// `uuid_str(X)`: the canonical text of the identifier that `X` decodes
/// to, or `NULL` where it decodes to none.
pub fn uuid_str_func(arg: &Value) -> (r: Option<String>)
    ensures
        option_text(r) == decode_to_text_spec(*arg),
{
    match decode(arg) {
        Some(id) => Some(encode_text(id)),
        None => None,
    }
}

/// `uuid_blob()` and `uuid_blob(X)`: with no argument, the bytes of a fresh
/// random identifier; with one, the bytes that it decodes to, or `NULL`.
pub fn uuid_blob_func(args: &[Value]) -> (r: Option<Vec<u8>>)
    ensures
        args@.len() == 0 ==> r is Some && is_random_scheme(r->0@),
        args@.len() > 0 ==> option_bytes(r) == decode_spec(args@[0]),
{
    if args.len() == 0 {
        return Some(encode_buffer(generate_random()));
    }
    match decode(&args[0]) {
        Some(id) => Some(encode_buffer(id)),
        None => None,
    }
}

/// `uuid7_blob()` and `uuid7_blob(X)`: with no argument, the bytes of a
/// fresh time-ordered identifier; with one, the bytes that it decodes to,
/// or `NULL`. An argument is decoded even where it is `NULL`.
pub fn uuid7_blob_func(args: &[Value]) -> (r: Option<Vec<u8>>)
    ensures
        args@.len() == 0 ==> r is Some && is_ordered_scheme(r->0@),
        args@.len() > 0 ==> option_bytes(r) == decode_spec(args@[0]),
{
    if args.len() == 0 {
        return Some(encode_buffer(generate_ordered()));
    }
    match decode(&args[0]) {
        Some(id) => Some(encode_buffer(id)),
        None => None,
    }
}

} // verus!
