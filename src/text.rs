//! The textual grammar of identifiers, as spec functions.
use vstd::prelude::*;

verus! {

/// `c` is a hexadecimal digit, in either case.
pub open spec fn is_hex_char(c: char) -> bool {
    ('0' <= c && c <= '9') || ('a' <= c && c <= 'f') || ('A' <= c && c <= 'F')
}

/// The value of the hexadecimal digit `c`.
pub open spec fn hex_value(c: char) -> int {
    if '0' <= c && c <= '9' {
        c as int - '0' as int
    } else if 'a' <= c && c <= 'f' {
        c as int - 'a' as int + 10
    } else {
        c as int - 'A' as int + 10
    }
}

/// The lowercase hexadecimal digit for `n` (0 to 15).
pub open spec fn lower_hex_digit(n: int) -> char {
    seq!['0', '1', '2', '3', '4', '5', '6', '7', '8', '9', 'a', 'b', 'c', 'd', 'e', 'f'][n]
}

/// The hex digit `c` in lowercase; any other character as it stands.
pub open spec fn ascii_lower(c: char) -> char {
    if 'A' <= c && c <= 'F' {
        lower_hex_digit(hex_value(c))
    } else {
        c
    }
}

/// The 36-character form: 32 digits split 8-4-4-4-12 by hyphens.
pub open spec fn hyphenate(d: Seq<char>) -> Seq<char> {
    d.subrange(0, 8) + seq!['-'] + d.subrange(8, 12) + seq!['-'] + d.subrange(12, 16) + seq!['-']
        + d.subrange(16, 20) + seq!['-'] + d.subrange(20, 32)
}

/// The 36-character text has hyphens at positions 8, 13, 18 and 23.
pub open spec fn hyphens_in_place(t: Seq<char>) -> bool {
    t.len() == 36 && t[8] == '-' && t[13] == '-' && t[18] == '-' && t[23] == '-'
}

/// The 32 digit positions of an accepted text: all of a 32-character text,
/// or a 36-character one without its four hyphens.
pub open spec fn digits_of(t: Seq<char>) -> Seq<char> {
    if t.len() == 32 {
        t
    } else {
        t.subrange(0, 8) + t.subrange(9, 13) + t.subrange(14, 18) + t.subrange(19, 23)
            + t.subrange(24, 36)
    }
}

/// `t` is an accepted textual identifier: 32 hex digits, or 36 characters
/// with hyphens in the standard places and hex digits elsewhere.
pub open spec fn is_identifier_text(t: Seq<char>) -> bool {
    &&& (t.len() == 32 || hyphens_in_place(t))
    &&& forall|i: int| 0 <= i < 32 ==> is_hex_char(#[trigger] digits_of(t)[i])
}

/// The 16 bytes spelt by an accepted text: byte `j` is the digit pair `2j`, `2j + 1`.
pub open spec fn text_bytes(t: Seq<char>) -> Seq<u8> {
    Seq::new(
        16,
        |j: int| (hex_value(digits_of(t)[2 * j]) * 16 + hex_value(digits_of(t)[2 * j + 1])) as u8,
    )
}

/// What decoding a text yields: its bytes if it is accepted, else nothing.
pub open spec fn decode_text_spec(t: Seq<char>) -> Option<Seq<u8>> {
    if is_identifier_text(t) {
        Some(text_bytes(t))
    } else {
        None
    }
}

/// The 32 lowercase digits of `b`, two per byte, high nibble first.
pub open spec fn hex_digits(b: Seq<u8>) -> Seq<char> {
    Seq::new(
        32,
        |i: int|
            if i % 2 == 0 {
                lower_hex_digit(b[i / 2] as int / 16)
            } else {
                lower_hex_digit(b[i / 2] as int % 16)
            },
    )
}

/// The canonical text of the identifier with bytes `b`:
/// 36 lowercase characters `xxxxxxxx-xxxx-xxxx-xxxx-xxxxxxxxxxxx`.
pub open spec fn canonical_text(b: Seq<u8>) -> Seq<char> {
    hyphenate(hex_digits(b))
}

/// An accepted text in canonical shape: its digits lowercased and set
/// out with hyphens in the standard places.
pub open spec fn normalize(t: Seq<char>) -> Seq<char> {
    hyphenate(Seq::new(32, |i: int| ascii_lower(digits_of(t)[i])))
}

proof fn lemma_digit_of_value(c: char)
    requires
        is_hex_char(c),
    ensures
        lower_hex_digit(hex_value(c)) == ascii_lower(c),
        0 <= hex_value(c) < 16,
{
}

proof fn lemma_byte_nibbles(h: int, l: int)
    requires
        0 <= h < 16,
        0 <= l < 16,
    ensures
        ((h * 16 + l) as u8) as int / 16 == h,
        ((h * 16 + l) as u8) as int % 16 == l,
{
    assert(0 <= h * 16 + l < 256) by (nonlinear_arith)
        requires
            0 <= h < 16,
            0 <= l < 16,
    ;
    assert((h * 16 + l) / 16 == h && (h * 16 + l) % 16 == l) by (nonlinear_arith)
        requires
            0 <= h < 16,
            0 <= l < 16,
    ;
}

proof fn lemma_value_of_digit(n: int)
    requires
        0 <= n < 16,
    ensures
        is_hex_char(lower_hex_digit(n)),
        hex_value(lower_hex_digit(n)) == n,
{
}

/// Encoding an identifier as text and decoding that text gives the same
/// bytes back.
pub proof fn lemma_canonical_text_decodes(b: Seq<u8>)
    requires
        b.len() == 16,
    ensures
        is_identifier_text(canonical_text(b)),
        text_bytes(canonical_text(b)) == b,
{
    let d = hex_digits(b);
    let t = canonical_text(b);
    assert(digits_of(t) =~= d);
    assert forall|i: int| 0 <= i < 32 implies is_hex_char(#[trigger] digits_of(t)[i]) by {
        if i % 2 == 0 {
            lemma_value_of_digit(b[i / 2] as int / 16);
        } else {
            lemma_value_of_digit(b[i / 2] as int % 16);
        }
    }
    assert forall|j: int| 0 <= j < 16 implies text_bytes(t)[j] == b[j] by {
        let v = b[j] as int;
        lemma_value_of_digit(v / 16);
        lemma_value_of_digit(v % 16);
        assert(2 * j / 2 == j && (2 * j + 1) / 2 == j && (2 * j) % 2 == 0 && (2 * j + 1) % 2 == 1);
        assert((v / 16) * 16 + v % 16 == v) by (nonlinear_arith)
            requires
                0 <= v < 256,
        ;
    }
    assert(text_bytes(t) =~= b);
}

/// Decoding an accepted text and encoding the result as text gives the
/// text in canonical shape: digits lowercased, hyphens in the standard places.
pub proof fn lemma_text_round_trip(t: Seq<char>)
    requires
        is_identifier_text(t),
    ensures
        canonical_text(text_bytes(t)) == normalize(t),
{
    let d = digits_of(t);
    let b = text_bytes(t);
    assert(d.len() == 32);
    assert forall|i: int| 0 <= i < 32 implies hex_digits(b)[i] == ascii_lower(d[i]) by {
        let j = i / 2;
        assert(is_hex_char(digits_of(t)[2 * j]));
        assert(is_hex_char(digits_of(t)[2 * j + 1]));
        lemma_digit_of_value(d[2 * j]);
        lemma_digit_of_value(d[2 * j + 1]);
        lemma_byte_nibbles(hex_value(d[2 * j]), hex_value(d[2 * j + 1]));
    }
    assert(hex_digits(b) =~= Seq::new(32, |i: int| ascii_lower(d[i])));
}

} // verus!
