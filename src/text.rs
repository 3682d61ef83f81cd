//! Rendering of bytes and integers as text.

use vstd::prelude::*;
use vstd::string::*;

verus! {

/// The sixteen lowercase hexadecimal digits, in order of value.
pub open spec fn hex_digits() -> Seq<char> {
    seq!['0', '1', '2', '3', '4', '5', '6', '7', '8', '9', 'a', 'b', 'c', 'd', 'e', 'f']
}

/// Two lowercase hexadecimal digits for each byte, high nibble first.
pub open spec fn lower_hex(bytes: Seq<u8>) -> Seq<char> {
    Seq::new(
        2 * bytes.len(),
        |i: int|
            if i % 2 == 0 {
                hex_digits()[(bytes[i / 2] / 16) as int]
            } else {
                hex_digits()[(bytes[i / 2] % 16) as int]
            },
    )
}

/// The decimal digits of a natural number, most significant first, without
/// leading zeros.
pub open spec fn decimal_digits(n: nat) -> Seq<char>
    decreases n,
{
    if n < 10 {
        seq![hex_digits()[n as int]]
    } else {
        decimal_digits(n / 10).push(hex_digits()[(n % 10) as int])
    }
}

/// The decimal rendering of an integer: a minus sign for negative values,
/// then the digits of its magnitude.
pub open spec fn decimal(n: int) -> Seq<char> {
    if n < 0 {
        seq!['-'] + decimal_digits((-n) as nat)
    } else {
        decimal_digits(n as nat)
    }
}

/// Every character of the hexadecimal rendering is a lowercase hexadecimal
/// digit, and there are two per byte.
pub proof fn lemma_lower_hex_shape(bytes: Seq<u8>)
    ensures
        lower_hex(bytes).len() == 2 * bytes.len(),
        forall|i: int| 0 <= i < lower_hex(bytes).len() ==> hex_digits().contains(#[trigger] lower_hex(bytes)[i]),
{
    assert forall|i: int| 0 <= i < lower_hex(bytes).len() implies hex_digits().contains(#[trigger] lower_hex(bytes)[i]) by {
        let d: int = if i % 2 == 0 { (bytes[i / 2] / 16) as int } else { (bytes[i / 2] % 16) as int };
        assert(lower_hex(bytes)[i] == hex_digits()[d]);
    }
}

/// Appends the digit of value `d` to `s`.
fn push_digit(s: &mut String, d: u8)
    requires
        d < 16,
    ensures
        final(s)@ == old(s)@.push(hex_digits()[d as int]),
{
    let digits = "0123456789abcdef";
    proof {
        reveal_strlit("0123456789abcdef");
    }
    assert(digits@ =~= hex_digits());
    let one = digits.substring_char(d as usize, d as usize + 1);
    s.append(one);
    assert(one@ =~= seq![hex_digits()[d as int]]);
    assert(final(s)@ =~= old(s)@.push(hex_digits()[d as int]));
}

/// Renders bytes as lowercase hexadecimal text.
pub fn to_lower_hex(bytes: &[u8]) -> (r: String)
    ensures
        r@ == lower_hex(bytes@),
{
    let mut r = String::new();
    let mut i: usize = 0;
    while i < bytes.len()
        invariant
            i <= bytes@.len(),
            r@.len() == 2 * i,
            forall|j: int| 0 <= j < 2 * i ==> r@[j] == lower_hex(bytes@)[j],
        decreases bytes@.len() - i,
    {
        let b = bytes[i];
        push_digit(&mut r, b / 16);
        push_digit(&mut r, b % 16);
        i = i + 1;
    }
    assert(r@ =~= lower_hex(bytes@));
    r
}

/// Appends the decimal digits of `n` to `s`.
fn push_decimal_digits(s: &mut String, n: u32)
    ensures
        final(s)@ == old(s)@ + decimal_digits(n as nat),
    decreases n,
{
    if n >= 10 {
        push_decimal_digits(s, n / 10);
    }
    push_digit(s, (n % 10) as u8);
    assert(final(s)@ =~= old(s)@ + decimal_digits(n as nat));
}

/// Renders an integer in decimal, as `Display` does for `i32`.
pub fn to_decimal(n: i32) -> (r: String)
    ensures
        r@ == decimal(n as int),
{
    let mut r = String::new();
    if n < 0 {
        let minus = "-";
        proof {
            reveal_strlit("-");
        }
        r.append(minus);
        let magnitude: u32 = (0i64 - n as i64) as u32;
        push_decimal_digits(&mut r, magnitude);
        assert(r@ =~= decimal(n as int));
    } else {
        push_decimal_digits(&mut r, n as u32);
        assert(r@ =~= decimal(n as int));
    }
    r
}

} // verus!
