//! Colon-delimited hex, for diagnostics.

use vstd::prelude::*;

verus! {

/// The lower-case hex digit of nibble `n`.
pub open spec fn hex_char(n: int) -> char {
    "0123456789abcdef"@[n]
}

/// The two hex digits of a byte.
pub open spec fn hex_pair(b: u8) -> Seq<char> {
    seq![hex_char(b as int / 16), hex_char(b as int % 16)]
}

/// The bytes as hex pairs with a `:` between each two, as in `ab:cd:ef`.
pub open spec fn colon_hex(b: Seq<u8>) -> Seq<char>
    decreases b.len(),
{
    if b.len() == 0 {
        Seq::empty()
    } else if b.len() == 1 {
        hex_pair(b[0])
    } else {
        colon_hex(b.drop_last()) + seq![':'] + hex_pair(b.last())
    }
}

/// The hex digit of nibble `n`, as text.
fn hex_digit_str(n: u8) -> (r: &'static str)
    requires
        n < 16,
    ensures
        r@ == seq![hex_char(n as int)],
{
    let digits = "0123456789abcdef";
    proof {
        reveal_strlit("0123456789abcdef");
    }
    assert(digits.is_ascii());
    let r = digits.substring_ascii(n as usize, n as usize + 1);
    assert(r@ =~= seq![hex_char(n as int)]);
    r
}

/// Appends the colon-delimited hex of `b` to `out`.
pub fn push_colon_delimited_hex(out: &mut String, b: &[u8])
    ensures
        final(out)@ == old(out)@ + colon_hex(b@),
{
    let mut i: usize = 0;
    while i < b.len()
        invariant
            i <= b@.len(),
            out@ == old(out)@ + colon_hex(b@.take(i as int)),
        decreases b@.len() - i,
    {
        if i > 0 {
            out.append(":");
            proof {
                reveal_strlit(":");
            }
        }
        out.append(hex_digit_str(b[i] / 16));
        out.append(hex_digit_str(b[i] % 16));
        proof {
            let t = b@.take(i as int + 1);
            assert(t.drop_last() =~= b@.take(i as int));
            assert(t.last() == b@[i as int]);
            assert(out@ =~= old(out)@ + colon_hex(t));
        }
        i = i + 1;
    }
    assert(b@.take(b@.len() as int) =~= b@);
}

} // verus!
