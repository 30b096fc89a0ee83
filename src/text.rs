//! Lower-case hexadecimal and right-aligned decimal rendering of small integers.

use vstd::prelude::*;
use vstd::string::*;

verus! {

/// The sixteen lower-case hexadecimal digits, in order.
pub open spec fn hex_digits() -> Seq<char> {
    seq!['0', '1', '2', '3', '4', '5', '6', '7', '8', '9', 'a', 'b', 'c', 'd', 'e', 'f']
}

/// A byte as exactly two lower-case hexadecimal digits.
pub open spec fn hex2(b: u8) -> Seq<char> {
    seq![hex_digits()[b as int / 16], hex_digits()[b as int % 16]]
}

fn push_hex_digit(s: &mut String, d: u8)
    requires
        d < 16,
    ensures
        final(s)@ == old(s)@.push(hex_digits()[d as int]),
{
    let digits = "0123456789abcdef";
    proof {
        reveal_strlit("0123456789abcdef");
        assert(digits@ =~= hex_digits());
    }
    let one = digits.substring_char(d as usize, d as usize + 1);
    assert(one@ =~= seq![hex_digits()[d as int]]);
    s.append(one);
    assert(s@ =~= old(s)@.push(hex_digits()[d as int]));
}

/// Appends the two hexadecimal digits of `b` to `s`.
pub fn push_hex2(s: &mut String, b: u8)
    ensures
        final(s)@ == old(s)@ + hex2(b),
{
    push_hex_digit(s, b / 16);
    push_hex_digit(s, b % 16);
    assert(s@ =~= old(s)@ + hex2(b));
}

/// Bytes as two-digit hexadecimal numbers separated by `, `.
pub open spec fn hex_list(b: Seq<u8>) -> Seq<char>
    decreases b.len(),
{
    if b.len() == 0 {
        Seq::empty()
    } else if b.len() == 1 {
        hex2(b[0])
    } else {
        hex_list(b.drop_last()) + ", "@ + hex2(b.last())
    }
}

/// The ten decimal digits, in order.
pub open spec fn dec_digits() -> Seq<char> {
    seq!['0', '1', '2', '3', '4', '5', '6', '7', '8', '9']
}

/// The character of `n` written in decimal in the column of `unit` (a power
/// of ten): its digit there, or a space where `n` has no digit so far left.
pub open spec fn dec_column(n: int, unit: int) -> char {
    if unit == 1 || n >= unit {
        dec_digits()[(n / unit) % 10]
    } else {
        ' '
    }
}

/// `n` in decimal, right-aligned in five columns (`u16` never needs more).
pub open spec fn dec5(n: u16) -> Seq<char> {
    seq![
        dec_column(n as int, 10000),
        dec_column(n as int, 1000),
        dec_column(n as int, 100),
        dec_column(n as int, 10),
        dec_column(n as int, 1),
    ]
}

/// Appends the two-digit hexadecimal forms of `b`, separated by `, `.
pub fn push_hex_list(s: &mut String, b: &[u8])
    ensures
        final(s)@ == old(s)@ + hex_list(b@),
{
    let mut i: usize = 0;
    while i < b.len()
        invariant
            i <= b@.len(),
            s@ == old(s)@ + hex_list(b@.subrange(0, i as int)),
        decreases b@.len() - i,
    {
        if i > 0 {
            s.append(", ");
        }
        push_hex2(s, b[i]);
        proof {
            reveal_strlit(", ");
            let next = b@.subrange(0, i + 1);
            assert(next.drop_last() =~= b@.subrange(0, i as int));
            assert(next.last() == b@[i as int]);
            assert(b@.subrange(0, 0) =~= Seq::<u8>::empty());
            assert(s@ =~= old(s)@ + hex_list(next));
        }
        i = i + 1;
    }
    assert(b@.subrange(0, b@.len() as int) =~= b@);
}

fn push_dec_column(s: &mut String, n: u16, unit: u16)
    requires
        unit == 1 || unit == 10 || unit == 100 || unit == 1000 || unit == 10000,
    ensures
        final(s)@ == old(s)@.push(dec_column(n as int, unit as int)),
{
    if unit == 1 || n >= unit {
        let d: u16 = (n / unit) % 10;
        let digits = "0123456789";
        proof {
            reveal_strlit("0123456789");
            assert(digits@ =~= dec_digits());
        }
        let one = digits.substring_char(d as usize, d as usize + 1);
        assert(one@ =~= seq![dec_digits()[d as int]]);
        s.append(one);
    } else {
        let blank = " ";
        proof {
            reveal_strlit(" ");
        }
        s.append(blank);
    }
    assert(s@ =~= old(s)@.push(dec_column(n as int, unit as int)));
}

/// Appends `n` in decimal, right-aligned in five columns.
pub fn push_dec5(s: &mut String, n: u16)
    ensures
        final(s)@ == old(s)@ + dec5(n),
{
    push_dec_column(s, n, 10000);
    push_dec_column(s, n, 1000);
    push_dec_column(s, n, 100);
    push_dec_column(s, n, 10);
    push_dec_column(s, n, 1);
    assert(s@ =~= old(s)@ + dec5(n));
}

} // verus!
