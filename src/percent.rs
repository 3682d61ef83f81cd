//! Percent-encoding of query values.

use vstd::prelude::*;
use vstd::string::*;
use vstd::utf8::*;

verus! {

/// The sixteen uppercase hexadecimal digits, in order of value.
pub open spec fn upper_hex_digits() -> Seq<char> {
    seq!['0', '1', '2', '3', '4', '5', '6', '7', '8', '9', 'A', 'B', 'C', 'D', 'E', 'F']
}

/// Bytes that stand for themselves: ASCII letters and digits, `-`, `.`, `_`
/// and `~`.
pub open spec fn is_unreserved(b: u8) -> bool {
    (0x30 <= b <= 0x39) || (0x41 <= b <= 0x5a) || (0x61 <= b <= 0x7a) || b == 0x2d || b == 0x2e
        || b == 0x5f || b == 0x7e
}

/// One byte, percent-encoded: itself when unreserved, else `%` and two
/// uppercase hexadecimal digits.
pub open spec fn encode_byte(b: u8) -> Seq<char> {
    if is_unreserved(b) {
        seq![(b as u32) as char]
    } else {
        seq!['%', upper_hex_digits()[(b / 16) as int], upper_hex_digits()[(b % 16) as int]]
    }
}

/// Each byte percent-encoded in turn.
pub open spec fn percent_encoded(data: Seq<u8>) -> Seq<char>
    decreases data.len(),
{
    if data.len() == 0 {
        Seq::empty()
    } else {
        encode_byte(data[0]) + percent_encoded(data.drop_first())
    }
}

/// The value of a hexadecimal digit of either case.
pub open spec fn hex_value(c: char) -> int {
    let u = c as u32;
    if 0x30 <= u <= 0x39 {
        u - 0x30
    } else if 0x41 <= u <= 0x46 {
        u - 0x41 + 10
    } else if 0x61 <= u <= 0x66 {
        u - 0x61 + 10
    } else {
        0
    }
}

/// Percent-decoding: `%` and two hexadecimal digits give the byte they
/// spell; any other character gives its own code.
pub open spec fn percent_decoded(text: Seq<char>) -> Seq<u8>
    decreases text.len(),
{
    if text.len() == 0 {
        Seq::empty()
    } else if text[0] == '%' && text.len() >= 3 {
        seq![(hex_value(text[1]) * 16 + hex_value(text[2])) as u8] + percent_decoded(
            text.subrange(3, text.len() as int),
        )
    } else {
        seq![(text[0] as u32) as u8] + percent_decoded(text.drop_first())
    }
}

proof fn lemma_decode_byte(b: u8, rest: Seq<char>)
    ensures
        percent_decoded(encode_byte(b) + rest) == seq![b] + percent_decoded(rest),
{
    let t = encode_byte(b) + rest;
    if is_unreserved(b) {
        assert(t.drop_first() =~= rest);
        assert(((b as u32) as char) as u32 == b as u32);
    } else {
        assert(t.subrange(3, t.len() as int) =~= rest);
        let hi = b / 16;
        let lo = b % 16;
        assert(hex_value(upper_hex_digits()[hi as int]) == hi) by {
            assert(0 <= hi < 16);
        }
        assert(hex_value(upper_hex_digits()[lo as int]) == lo) by {
            assert(0 <= lo < 16);
        }
    }
}

/// Decoding percent-encoded bytes gives the bytes back.
pub proof fn lemma_decode_encoded(data: Seq<u8>)
    ensures
        percent_decoded(percent_encoded(data)) == data,
    decreases data.len(),
{
    if data.len() > 0 {
        lemma_decode_byte(data[0], percent_encoded(data.drop_first()));
        lemma_decode_encoded(data.drop_first());
        assert(seq![data[0]] + data.drop_first() =~= data);
    }
}

/// Percent-encoding a text and then decoding it, bytes as UTF-8, gives the
/// text back.
pub proof fn lemma_round_trip(text: Seq<char>)
    ensures
        decode_utf8(percent_decoded(percent_encoded(encode_utf8(text)))) == text,
{
    lemma_decode_encoded(encode_utf8(text));
    encode_utf8_decode_utf8(text);
}

/// Relies on `urlencoding::encode`: every byte of the UTF-8 form of `s`
/// percent-encoded, but for ASCII letters and digits, `-`, `.`, `_` and `~`.
#[verifier::external_body]
pub(crate) fn url_encode(s: &str) -> (r: String)
    ensures
        r@ == percent_encoded(s.spec_bytes()),
{
    urlencoding::encode(s).into_owned()
}

} // verus!
