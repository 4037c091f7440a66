//! Uppercase hex rendering of byte strings, used to print addresses.

use vstd::prelude::*;

verus! {

/// The uppercase hex digit for a value below 16.
pub open spec fn hex_digit(d: u8) -> char
    recommends
        d < 16,
{
    if d < 10 {
        ((48 + d) as u8) as char
    } else {
        ((55 + d) as u8) as char
    }
}

/// The two hex digits of one byte, high digit first.
pub open spec fn hex_pair(b: u8) -> Seq<char> {
    seq![hex_digit(b / 16), hex_digit(b % 16)]
}

/// The hex rendering of a byte string: each byte as two uppercase digits,
/// bytes in order.
pub open spec fn hex_string(bytes: Seq<u8>) -> Seq<char>
    decreases bytes.len(),
{
    if bytes.len() == 0 {
        Seq::empty()
    } else {
        hex_string(bytes.drop_last()) + hex_pair(bytes.last())
    }
}

/// The hex rendering is two characters per byte.
pub proof fn lemma_hex_string_len(bytes: Seq<u8>)
    ensures
        hex_string(bytes).len() == 2 * bytes.len(),
    decreases bytes.len(),
{
    if bytes.len() > 0 {
        lemma_hex_string_len(bytes.drop_last());
    }
}

/// Appends the two hex digits of `b` to `out`, via a digit-table literal.
pub fn push_hex_byte(out: &mut String, b: u8)
    ensures
        final(out)@ == old(out)@ + hex_pair(b),
{
    let digits: &str = "0123456789ABCDEF";
    proof {
        reveal_strlit("0123456789ABCDEF");
    }
    let hi: u8 = b / 16;
    let lo: u8 = b % 16;
    proof {
        assert(digits@[hi as int] == hex_digit(hi));
        assert(digits@[lo as int] == hex_digit(lo));
    }
    let hs = digits.substring_ascii(hi as usize, hi as usize + 1);
    out.append(hs);
    let ls = digits.substring_ascii(lo as usize, lo as usize + 1);
    out.append(ls);
    proof {
        assert(out@ =~= old(out)@ + hex_pair(b));
    }
}

} // verus!
