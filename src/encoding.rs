//! Text schemes for carrying key bytes: raw bytes, or lower-case hex.
//!
//! Hex goes through the constant-time codec of `subtle_encoding`; what it
//! produces and accepts is stated here digit by digit.

use vstd::prelude::*;

verus! {

/// A scheme that turns bytes into text and back.
#[derive(Clone, Copy, Debug, PartialEq, Eq, Structural)]
pub enum Encoding {
    /// The bytes themselves.
    Raw,
    /// Lower-case hexadecimal, two digits per byte, high nibble first.
    Hex,
}

/// Whether `c` is one of `0-9` or `a-f`.
pub open spec fn is_lower_hex_digit(c: u8) -> bool {
    (0x30 <= c && c <= 0x39) || (0x61 <= c && c <= 0x66)
}

/// The value of a hex digit.
pub open spec fn hex_digit_value(c: u8) -> int {
    if c <= 0x39 {
        c - 0x30
    } else {
        c - 0x61 + 10
    }
}

/// The lower-case hex digit of a nibble.
pub open spec fn hex_digit(n: int) -> u8 {
    if n < 10 {
        (0x30 + n) as u8
    } else {
        (0x61 + n - 10) as u8
    }
}

/// Lower-case hex of `b`: byte `i` gives the digits at `2 * i` and `2 * i + 1`.
pub open spec fn lower_hex_of(b: Seq<u8>) -> Seq<u8> {
    Seq::new(
        2 * b.len(),
        |i: int|
            if i % 2 == 0 {
                hex_digit(b[i / 2] as int / 16)
            } else {
                hex_digit(b[i / 2] as int % 16)
            },
    )
}

/// Whether `s` is lower-case hex: an even number of digits.
pub open spec fn is_lower_hex(s: Seq<u8>) -> bool {
    &&& s.len() % 2 == 0
    &&& forall|i: int| 0 <= i < s.len() ==> is_lower_hex_digit(#[trigger] s[i])
}

/// The bytes that lower-case hex `s` stands for.
pub open spec fn lower_hex_decoded(s: Seq<u8>) -> Seq<u8> {
    Seq::new(
        s.len() / 2,
        |i: int| (16 * hex_digit_value(s[2 * i]) + hex_digit_value(s[2 * i + 1])) as u8,
    )
}

/// The text that `scheme` makes of `b`.
pub open spec fn encoded(scheme: Encoding, b: Seq<u8>) -> Seq<u8> {
    match scheme {
        Encoding::Raw => b,
        Encoding::Hex => lower_hex_of(b),
    }
}

/// The bytes that `scheme` reads in text `s`, if it is well formed.
pub open spec fn decoded(scheme: Encoding, s: Seq<u8>) -> Option<Seq<u8>> {
    match scheme {
        Encoding::Raw => Some(s),
        Encoding::Hex => if is_lower_hex(s) {
            Some(lower_hex_decoded(s))
        } else {
            None
        },
    }
}

/// Relies on `subtle_encoding::hex::encode`: lower-case digits, two per
/// byte, high nibble first.
#[verifier::external_body]
fn hex_encode(b: &[u8]) -> (r: Vec<u8>)
    ensures
        r@ == lower_hex_of(b@),
{
    subtle_encoding::hex::encode(b)
}

/// Relies on `Encoding::decode_to_slice` of `subtle_encoding::Hex::lower_case()`:
/// it accepts an even number of lower-case digits whose bytes fit in `dst`,
/// writes them at its start and returns their count.
#[verifier::external_body]
fn hex_decode_to_slice(src: &[u8], dst: &mut Vec<u8>) -> (r: Option<usize>)
    ensures
        final(dst)@.len() == old(dst)@.len(),
        r is Some <==> (is_lower_hex(src@) && src@.len() / 2 <= old(dst)@.len()),
        r matches Some(n) ==> n == src@.len() / 2 && final(dst)@.subrange(0, n as int)
            == lower_hex_decoded(src@),
{
    subtle_encoding::Encoding::decode_to_slice(
        &subtle_encoding::Hex::lower_case(),
        src,
        dst.as_mut_slice(),
    ).ok()
}

impl Encoding {
    /// Encodes `b` with this scheme.
    pub fn encode_bytes(self, b: &[u8]) -> (r: Vec<u8>)
        ensures
            r@ == encoded(self, b@),
    {
        match self {
            Encoding::Raw => vstd::slice::slice_to_vec(b),
            Encoding::Hex => hex_encode(b),
        }
    }

    /// Decodes `src` into the start of `dst` and returns how many bytes it
    /// wrote; `None` where `src` is not well formed or its bytes do not fit.
    pub fn decode_into(self, src: &[u8], dst: &mut Vec<u8>) -> (r: Option<usize>)
        ensures
            final(dst)@.len() == old(dst)@.len(),
            match decoded(self, src@) {
                Some(d) => if d.len() <= old(dst)@.len() {
                    r == Some(d.len() as usize) && final(dst)@.subrange(0, d.len() as int) == d
                } else {
                    r is None
                },
                None => r is None,
            },
    {
        match self {
            Encoding::Raw => {
                if src.len() > dst.len() {
                    return None;
                }
                let mut i: usize = 0;
                while i < src.len()
                    invariant
                        i <= src@.len() <= dst@.len(),
                        dst@.len() == old(dst)@.len(),
                        forall|j: int| 0 <= j < i ==> dst@[j] == src@[j],
                    decreases src@.len() - i,
                {
                    dst.set(i, src[i]);
                    i = i + 1;
                }
                assert(dst@.subrange(0, src@.len() as int) =~= src@);
                Some(src.len())
            },
            Encoding::Hex => hex_decode_to_slice(src, dst),
        }
    }
}

/// Decoding what a scheme encoded gives back the bytes.
pub proof fn lemma_decode_encoded(scheme: Encoding, b: Seq<u8>)
    ensures
        decoded(scheme, encoded(scheme, b)) == Some(b),
{
    if scheme is Hex {
        let h = lower_hex_of(b);
        assert forall|i: int| 0 <= i < h.len() implies is_lower_hex_digit(#[trigger] h[i]) by {
            assert(0 <= b[i / 2] / 16 < 16);
            assert(0 <= b[i / 2] % 16 < 16);
        }
        assert forall|i: int| 0 <= i < b.len() implies #[trigger] lower_hex_decoded(h)[i] == b[i] by {
            assert(h[2 * i] == hex_digit(b[i] as int / 16));
            assert(h[2 * i + 1] == hex_digit(b[i] as int % 16));
            assert(16 * (b[i] / 16) + b[i] % 16 == b[i]);
        }
        assert(lower_hex_decoded(h) =~= b);
    }
}

} // verus!
