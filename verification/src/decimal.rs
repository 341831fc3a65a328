use vstd::prelude::*;
use vstd::utf8::{encode_utf8, is_ascii_chars, is_ascii_chars_encode_utf8};

verus! {

/// The decimal digit character for a value below 10.
pub open spec fn digit_char(d: int) -> char {
    (48 + d) as char
}

/// The decimal text of `n`: no sign, no leading zeros (`0` is written `0`).
pub open spec fn decimal_text(n: nat) -> Seq<char>
    decreases n,
{
    if n < 10 {
        seq![digit_char(n as int)]
    } else {
        decimal_text(n / 10).push(digit_char((n % 10) as int))
    }
}

/// `b` is an ASCII digit.
pub open spec fn is_ascii_digit(b: u8) -> bool {
    48 <= b <= 57
}

pub open spec fn all_ascii_digits(b: Seq<u8>) -> bool {
    forall|i: int| 0 <= i < b.len() ==> #[trigger] is_ascii_digit(b[i])
}

/// The number written by a sequence of ASCII digits, most significant first.
pub open spec fn digits_value(b: Seq<u8>) -> nat
    decreases b.len(),
{
    if b.len() == 0 {
        0
    } else {
        digits_value(b.drop_last()) * 10 + (b.last() - 48) as nat
    }
}

/// The digits of an unsigned number's text: what follows an optional `+`.
pub open spec fn unsigned_digits(b: Seq<u8>) -> Seq<u8> {
    if b.len() > 0 && b[0] == 43 {
        b.drop_first()
    } else {
        b
    }
}

/// How an unsigned integer type whose largest value is `max` reads the text
/// `b` (the std `FromStr` rule): an optional `+`, then one or more ASCII
/// digits, whose value must not exceed `max`.
pub open spec fn parse_unsigned(b: Seq<u8>, max: nat) -> Option<nat> {
    let digits = unsigned_digits(b);
    if digits.len() > 0 && all_ascii_digits(digits) && digits_value(digits) <= max {
        Some(digits_value(digits))
    } else {
        None
    }
}

/// A prefix of a digit string is worth no more than the whole string.
proof fn lemma_digits_value_prefix(b: Seq<u8>, k: int)
    requires
        0 <= k <= b.len(),
        all_ascii_digits(b),
    ensures
        digits_value(b.take(k)) <= digits_value(b),
    decreases b.len() - k,
{
    if k < b.len() {
        lemma_digits_value_prefix(b, k + 1);
        assert(b.take(k + 1).drop_last() =~= b.take(k));
        assert(is_ascii_digit(b[k]));
    } else {
        assert(b.take(k) =~= b);
    }
}

/// The text of one decimal digit.
fn digit_str(d: u8) -> (s: &'static str)
    requires
        d < 10,
    ensures
        s@ == seq![digit_char(d as int)],
{
    proof {
        reveal_strlit("0");
        reveal_strlit("1");
        reveal_strlit("2");
        reveal_strlit("3");
        reveal_strlit("4");
        reveal_strlit("5");
        reveal_strlit("6");
        reveal_strlit("7");
        reveal_strlit("8");
        reveal_strlit("9");
    }
    match d {
        0 => "0",
        1 => "1",
        2 => "2",
        3 => "3",
        4 => "4",
        5 => "5",
        6 => "6",
        7 => "7",
        8 => "8",
        _ => "9",
    }
}

/// Writes `n` in decimal, as `u128::to_string` does.
pub fn decimal_string(n: u128) -> (s: String)
    ensures
        s@ == decimal_text(n as nat),
    decreases n,
{
    if n < 10 {
        let d: u8 = n as u8;
        String::from_str(digit_str(d))
    } else {
        let mut s = decimal_string(n / 10);
        let d: u8 = (n % 10) as u8;
        s.append(digit_str(d));
        s
    }
}

/// Reads an unsigned number no larger than `max` from `text`, by the rule of
/// [`parse_unsigned`].
pub fn parse_unsigned_str(text: &str, max: u128) -> (r: Option<u128>)
    ensures
        match parse_unsigned(encode_utf8(text@), max as nat) {
            Some(v) => r == Some(v as u128),
            None => r is None,
        },
{
    let bytes = text.as_bytes();
    let ghost b = bytes@;
    let mut start: usize = 0;
    if bytes.len() > 0 && bytes[0] == 43 {
        start = 1;
    }
    let ghost digits = unsigned_digits(b);
    assert(digits =~= b.subrange(start as int, b.len() as int));
    if start == bytes.len() {
        return None;
    }
    let mut acc: u128 = 0;
    let mut i: usize = start;
    while i < bytes.len()
        invariant
            bytes@ == b,
            digits == b.subrange(start as int, b.len() as int),
            digits == unsigned_digits(b),
            b == encode_utf8(text@),
            start <= i <= b.len(),
            acc as nat == digits_value(digits.take(i - start)),
            all_ascii_digits(digits.take(i - start)),
            acc <= max,
        decreases b.len() - i,
    {
        let c = bytes[i];
        if c < 48 || c > 57 {
            assert(!is_ascii_digit(digits[i - start]));
            return None;
        }
        let d: u128 = (c - 48) as u128;
        assert(digits.take(i - start + 1).drop_last() =~= digits.take(i - start));
        assert(digits.take(i - start + 1).last() == c);
        if d > max || acc > (max - d) / 10 {
            proof {
                if d <= max {
                    assert(acc * 10 + d > max) by (nonlinear_arith)
                        requires
                            acc > (max - d) / 10,
                            d <= max,
                    ;
                }
                assert(digits_value(digits.take(i - start + 1)) > max);
                if all_ascii_digits(digits) {
                    lemma_digits_value_prefix(digits, i - start + 1);
                }
            }
            return None;
        }
        acc = acc * 10 + d;
        i = i + 1;
    }
    assert(digits.take(digits.len() as int) =~= digits);
    Some(acc)
}

proof fn lemma_decimal_text_bytes(n: nat)
    ensures
        is_ascii_chars(decimal_text(n)),
        decimal_text(n).len() >= 1,
        all_ascii_digits(encode_utf8(decimal_text(n))),
        digits_value(encode_utf8(decimal_text(n))) == n,
        encode_utf8(decimal_text(n))[0] != 43,
    decreases n,
{
    let t = decimal_text(n);
    if n < 10 {
        assert(is_ascii_chars(t));
        is_ascii_chars_encode_utf8(t);
        let b = encode_utf8(t);
        assert(b[0] == t[0] as u8);
        assert(b.drop_last().len() == 0);
        assert(digits_value(b.drop_last()) == 0);
        assert(b.last() as int == 48 + n);
    } else {
        lemma_decimal_text_bytes(n / 10);
        let p = decimal_text(n / 10);
        assert(t == p.push(digit_char((n % 10) as int)));
        assert(is_ascii_chars(t));
        is_ascii_chars_encode_utf8(t);
        is_ascii_chars_encode_utf8(p);
        let b = encode_utf8(t);
        let pb = encode_utf8(p);
        assert(b.drop_last() =~= pb) by {
            assert forall|i: int| 0 <= i < pb.len() implies b.drop_last()[i] == pb[i] by {
                assert(t[i] == p[i]);
                assert(b[i] == t[i] as u8);
                assert(pb[i] == p[i] as u8);
            }
        }
        assert(b.last() == t[t.len() - 1] as u8);
        assert(b.last() as int == 48 + (n % 10));
        assert(digits_value(b) == digits_value(b.drop_last()) * 10 + (b.last() - 48) as nat);
        assert(n == (n / 10) * 10 + n % 10);
        assert forall|i: int| 0 <= i < b.len() implies #[trigger] is_ascii_digit(b[i]) by {
            if i < pb.len() {
                assert(b[i] == pb[i]);
            }
        }
        assert(b[0] == pb[0]);
    }
}

/// Decimal text reads back as the number it was written from, under any
/// bound that the number does not exceed.
pub proof fn law_decimal_roundtrip(n: nat, max: nat)
    requires
        n <= max,
    ensures
        parse_unsigned(encode_utf8(decimal_text(n)), max) == Some(n),
{
    lemma_decimal_text_bytes(n);
}

} // verus!
