use vstd::prelude::*;
use vstd::utf8::encode_utf8;
use crate::hex_codec::{hex_encoded, is_hex_digit, is_valid_hex, law_hex_roundtrip};

verus! {

/// Lower-case hex digit byte for a value below 16.
pub open spec fn hex_digit_byte(n: int) -> u8 {
    if n < 10 {
        (48 + n) as u8
    } else {
        (87 + n) as u8
    }
}

/// How one byte of a string is written inside a JSON string literal: quote,
/// backslash and control bytes are escaped (`\b \t \n \f \r \" \\`, the other
/// control bytes as `\u00xx`); every other byte, UTF-8 continuation bytes
/// included, is written as it is.
pub open spec fn json_escape_byte(b: u8) -> Seq<u8> {
    if b == 8 {
        seq![92u8, 98u8]
    } else if b == 9 {
        seq![92u8, 116u8]
    } else if b == 10 {
        seq![92u8, 110u8]
    } else if b == 12 {
        seq![92u8, 102u8]
    } else if b == 13 {
        seq![92u8, 114u8]
    } else if b == 34 {
        seq![92u8, 34u8]
    } else if b == 92 {
        seq![92u8, 92u8]
    } else if b < 32 {
        seq![92u8, 117u8, 48u8, 48u8, hex_digit_byte((b / 16) as int), hex_digit_byte((b % 16) as int)]
    } else {
        seq![b]
    }
}

/// The escaped form of a byte string, byte by byte.
pub open spec fn json_escaped(b: Seq<u8>) -> Seq<u8>
    decreases b.len(),
{
    if b.len() == 0 {
        Seq::empty()
    } else {
        json_escape_byte(b[0]) + json_escaped(b.drop_first())
    }
}

/// The JSON text of a string: its UTF-8 bytes, escaped, between double quotes.
pub open spec fn json_string_bytes(s: Seq<char>) -> Seq<u8> {
    seq![34u8] + json_escaped(encode_utf8(s)) + seq![34u8]
}

/// Calls `serde_json::to_vec` on a string. Claims what its source does for a
/// `str`: an opening quote, the string's UTF-8 bytes with quote, backslash and
/// control bytes escaped as `CompactFormatter` writes them, a closing quote.
/// It succeeds: its documentation says serialization fails only where the
/// value's `Serialize` impl fails or a map has non-string keys, and a `str`
/// serializes through `serialize_str`, whose only error is a write error,
/// which a `Vec` writer does not produce.
#[verifier::external_body]
fn json_string_to_vec(s: &str) -> (r: Result<Vec<u8>, String>)
    ensures
        r is Ok,
        r matches Ok(v) ==> v@ == json_string_bytes(s@),
{
    match serde_json::to_vec(s) {
        Ok(v) => Ok(v),
        Err(e) => Err(e.to_string()),
    }
}

/// The message body that records a failed request on the failure topic: the
/// request's hex text as a JSON string.
pub fn failed_request_payload(cmd: &String) -> (r: Result<Vec<u8>, String>)
    ensures
        r is Ok,
        r matches Ok(v) ==> v@ == json_string_bytes(cmd@),
{
    json_string_to_vec(cmd.as_str())
}

/// No byte of `b` needs escaping inside a JSON string.
pub open spec fn needs_no_escape(b: Seq<u8>) -> bool {
    forall|i: int| 0 <= i < b.len() ==> #[trigger] b[i] >= 32 && b[i] != 34 && b[i] != 92
}

proof fn lemma_unescaped_bytes_kept(b: Seq<u8>)
    requires
        needs_no_escape(b),
    ensures
        json_escaped(b) == b,
    decreases b.len(),
{
    if b.len() > 0 {
        assert(b[0] >= 32 && b[0] != 34 && b[0] != 92);
        assert(needs_no_escape(b.drop_first())) by {
            assert forall|i: int| 0 <= i < b.drop_first().len() implies #[trigger] b.drop_first()[i]
                >= 32 && b.drop_first()[i] != 34 && b.drop_first()[i] != 92 by {
                assert(b.drop_first()[i] == b[i + 1]);
            }
        }
        lemma_unescaped_bytes_kept(b.drop_first());
        assert(json_escaped(b) =~= seq![b[0]] + b.drop_first());
        assert(seq![b[0]] + b.drop_first() =~= b);
    }
}

/// Hex text needs no escaping: as a JSON string it is its own bytes between
/// double quotes.
pub proof fn law_hex_text_is_quoted_verbatim(d: Seq<u8>)
    ensures
        json_string_bytes(hex_encoded(d)) == seq![34u8] + encode_utf8(hex_encoded(d)) + seq![34u8],
{
    law_hex_roundtrip(d);
    let b = encode_utf8(hex_encoded(d));
    assert(is_valid_hex(b));
    assert forall|i: int| 0 <= i < b.len() implies #[trigger] b[i] >= 32 && b[i] != 34 && b[i]
        != 92 by {
        assert(is_hex_digit(b[i]));
    }
    lemma_unescaped_bytes_kept(b);
}

} // verus!
