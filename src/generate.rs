//! Fresh identifiers: random (version 4) and time-ordered (version 7).
use vstd::prelude::*;
use crate::identifier::{Identifier, is_ordered_scheme, is_random_scheme};

verus! {

/// Relies on `uuid::Uuid::new_v4`: 122 random bits, with the version
/// nibble set to 4 and the variant bits to `10`.
#[verifier::external_body]
fn new_v4_bytes() -> (r: [u8; 16])
    ensures
        is_random_scheme(r@),
{
    uuid::Uuid::new_v4().into_bytes()
}

/// Relies on `uuid::Uuid::now_v7`: a millisecond timestamp and counter
/// bits from a process-wide context, with the version nibble set to 7 and
/// the variant bits to `10`.
#[verifier::external_body]
fn now_v7_bytes() -> (r: [u8; 16])
    ensures
        is_ordered_scheme(r@),
{
    uuid::Uuid::now_v7().into_bytes()
}

/// A fresh random identifier, tagged version 4 with the standard variant.
pub fn generate_random() -> (r: Identifier)
    ensures
        is_random_scheme(r@),
{
    Identifier::from_bytes(new_v4_bytes())
}

/// A fresh time-ordered identifier, tagged version 7 with the standard variant.
pub fn generate_ordered() -> (r: Identifier)
    ensures
        is_ordered_scheme(r@),
{
    Identifier::from_bytes(now_v7_bytes())
}

} // verus!
