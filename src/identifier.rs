//! The identifier value and its mathematical model.
use vstd::prelude::*;

verus! {

/// A 128-bit identifier, held as its 16 bytes in big-endian order.
#[derive(Clone, Copy, Debug)]
pub struct Identifier {
    pub bytes: [u8; 16],
}

impl View for Identifier {
    type V = Seq<u8>;

    open spec fn view(&self) -> Seq<u8> {
        self.bytes@
    }
}

/// The version nibble of an identifier (high four bits of byte 6).
pub open spec fn version_of(b: Seq<u8>) -> int {
    b[6] as int / 16
}

/// The variant bits are `10`: the two high bits of byte 8.
pub open spec fn has_standard_variant(b: Seq<u8>) -> bool {
    b[8] as int / 64 == 2
}

/// Bytes tagged as a random (version 4) identifier.
pub open spec fn is_random_scheme(b: Seq<u8>) -> bool {
    b.len() == 16 && version_of(b) == 4 && has_standard_variant(b)
}

/// Bytes tagged as a time-ordered (version 7) identifier.
pub open spec fn is_ordered_scheme(b: Seq<u8>) -> bool {
    b.len() == 16 && version_of(b) == 7 && has_standard_variant(b)
}

/// The bytes of an optional identifier.
pub open spec fn option_view(r: Option<Identifier>) -> Option<Seq<u8>> {
    match r {
        Some(id) => Some(id@),
        None => None,
    }
}

impl Identifier {
    /// The identifier whose big-endian bytes are `bytes`.
    pub fn from_bytes(bytes: [u8; 16]) -> (r: Identifier)
        ensures
            r@ == bytes@,
    {
        Identifier { bytes }
    }

    /// The 16 big-endian bytes of the identifier.
    pub fn into_bytes(self) -> (r: [u8; 16])
        ensures
            r@ == self@,
    {
        self.bytes
    }

    /// The version nibble.
    pub fn version_num(&self) -> (r: u8)
        ensures
            r as int == version_of(self@),
    {
        self.bytes[6] / 16
    }
}

} // verus!
