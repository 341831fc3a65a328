use vstd::prelude::*;
use crate::rpc_types::ByteRec;
use vstd::utf8::{encode_utf8, is_ascii_chars, is_ascii_chars_encode_utf8};

verus! {

/// Why a hex string could not be decoded.
#[derive(Debug, Clone, Copy, PartialEq, Eq)]
pub enum HexError {
    /// The byte at `index` is not a hex digit; `c` is that byte read as a char.
    InvalidHexCharacter { c: char, index: usize },
    /// The input has an odd number of bytes.
    OddLength,
    /// The input does not fit the fixed size of the output.
    InvalidStringLength,
}

/// `b` is one of `0-9`, `A-F`, `a-f`.
pub open spec fn is_hex_digit(b: u8) -> bool {
    ||| 48 <= b <= 57
    ||| 65 <= b <= 70
    ||| 97 <= b <= 102
}

/// The value of a hex digit.
pub open spec fn hex_digit_value(b: u8) -> int {
    if 48 <= b <= 57 {
        b - 48
    } else if 65 <= b <= 70 {
        b - 55
    } else {
        b - 87
    }
}

pub open spec fn all_hex_digits(d: Seq<u8>) -> bool {
    forall|i: int| 0 <= i < d.len() ==> #[trigger] is_hex_digit(d[i])
}

/// Input that decodes: an even number of hex digits.
pub open spec fn is_valid_hex(d: Seq<u8>) -> bool {
    d.len() % 2 == 0 && all_hex_digits(d)
}

/// The bytes that a valid hex input stands for, two digits per byte, high
/// digit first.
pub open spec fn hex_decoded(d: Seq<u8>) -> Seq<u8> {
    Seq::new(
        d.len() / 2,
        |i: int| (hex_digit_value(d[2 * i]) * 16 + hex_digit_value(d[2 * i + 1])) as u8,
    )
}

/// The error reported for invalid input: `OddLength` for an odd number of
/// bytes, else the first byte that is not a hex digit.
pub open spec fn hex_error_for(d: Seq<u8>, e: HexError) -> bool {
    match e {
        HexError::OddLength => d.len() % 2 == 1,
        HexError::InvalidHexCharacter { c, index } => {
            &&& d.len() % 2 == 0
            &&& index < d.len()
            &&& !is_hex_digit(d[index as int])
            &&& c == (d[index as int] as char)
            &&& forall|j: int| 0 <= j < index ==> #[trigger] is_hex_digit(d[j])
        },
        HexError::InvalidStringLength => false,
    }
}

/// `r` is what decoding the hex input `d` gives.
pub open spec fn hex_decode_outcome(d: Seq<u8>, r: Result<Vec<u8>, HexError>) -> bool {
    match r {
        Ok(v) => is_valid_hex(d) && v@ == hex_decoded(d),
        Err(e) => !is_valid_hex(d) && hex_error_for(d, e),
    }
}

/// Lower-case hex digit for a value below 16.
pub open spec fn hex_char(n: int) -> char {
    if n < 10 {
        (48 + n) as char
    } else {
        (87 + n) as char
    }
}

/// Lower-case hex text of `d`, two digits per byte, high digit first.
pub open spec fn hex_encoded(d: Seq<u8>) -> Seq<char> {
    Seq::new(
        2 * d.len(),
        |i: int|
            if i % 2 == 0 {
                hex_char((d[i / 2] / 16) as int)
            } else {
                hex_char((d[i / 2] % 16) as int)
            },
    )
}

/// Calls `hex::decode` on bytes. Claims what its source does: odd length gives
/// `OddLength`; otherwise the first byte that is not a hex digit gives
/// `InvalidHexCharacter` with that byte and its index; otherwise each pair of
/// digits becomes one byte, high digit first.
#[verifier::external_body]
pub(crate) fn hex_decode_bytes(data: &[u8]) -> (r: Result<Vec<u8>, HexError>)
    ensures
        hex_decode_outcome(data@, r),
{
    match hex::decode(data) {
        Ok(v) => Ok(v),
        Err(hex::FromHexError::InvalidHexCharacter { c, index }) => Err(
            HexError::InvalidHexCharacter { c, index },
        ),
        Err(hex::FromHexError::OddLength) => Err(HexError::OddLength),
        Err(hex::FromHexError::InvalidStringLength) => Err(HexError::InvalidStringLength),
    }
}

/// Calls `hex::encode`. Claims what its source does: each byte becomes two
/// lower-case hex digits, high digit first.
#[verifier::external_body]
pub(crate) fn hex_encode_bytes(data: &[u8]) -> (s: String)
    ensures
        s@ == hex_encoded(data@),
{
    hex::encode(data)
}

/// Decodes the hex text carried by a request parameter into the serialized
/// order, taking the text by its UTF-8 bytes.
pub fn decode_byte_rec(rec: &ByteRec) -> (r: Result<Vec<u8>, HexError>)
    ensures
        hex_decode_outcome(encode_utf8(rec.data@), r),
{
    hex_decode_bytes(rec.data.as_str().as_bytes())
}

proof fn lemma_hex_char(n: int)
    requires
        0 <= n < 16,
    ensures
        '\0' <= hex_char(n) <= '\u{7f}',
        is_hex_digit(hex_char(n) as u8),
        hex_digit_value(hex_char(n) as u8) == n,
{
}

/// Hex text written by the encoder decodes to the bytes it was written from:
/// its UTF-8 bytes are an even number of hex digits, and they decode back.
pub proof fn law_hex_roundtrip(d: Seq<u8>)
    ensures
        is_valid_hex(encode_utf8(hex_encoded(d))),
        hex_decoded(encode_utf8(hex_encoded(d))) == d,
{
    let s = hex_encoded(d);
    assert forall|i: int| 0 <= i < s.len() implies '\0' <= #[trigger] s[i] <= '\u{7f}'
        && is_hex_digit(s[i] as u8) by {
        if i % 2 == 0 {
            lemma_hex_char((d[i / 2] / 16) as int);
        } else {
            lemma_hex_char((d[i / 2] % 16) as int);
        }
    }
    assert(is_ascii_chars(s));
    is_ascii_chars_encode_utf8(s);
    let b = encode_utf8(s);
    assert forall|i: int| 0 <= i < b.len() implies #[trigger] is_hex_digit(b[i]) by {
        assert(s[i] as u8 == b[i]);
    }
    assert forall|k: int| 0 <= k < d.len() implies #[trigger] hex_decoded(b)[k] == d[k] by {
        lemma_hex_char((d[k] / 16) as int);
        lemma_hex_char((d[k] % 16) as int);
        assert(s[2 * k] as u8 == b[2 * k]);
        assert(s[2 * k + 1] as u8 == b[2 * k + 1]);
        assert((2 * k) / 2 == k);
        assert((2 * k + 1) / 2 == k);
        assert((2 * k) % 2 == 0);
        assert((2 * k + 1) % 2 == 1);
    }
    assert(hex_decoded(b) =~= d);
}

} // verus!
