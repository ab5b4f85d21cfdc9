//! Weierstrass curves and their SEC1 point encodings.
//!
//! A curve fixes the size of its field elements, and with it the sizes of
//! the compressed encoding (tag `0x02`/`0x03` and X) and of the uncompressed
//! encoding (tag `0x04`, X and Y).

use vstd::prelude::*;

use crate::error::{Error, ErrorKind};

verus! {

/// Tag byte that opens an uncompressed point.
pub const UNCOMPRESSED_TAG: u8 = 0x04;

/// The Weierstrass curves whose keys this library holds.
#[derive(Clone, Copy, Debug, PartialEq, Eq, Structural)]
pub enum CurveKind {
    NistP256,
    NistP384,
    Secp256k1,
}

/// Whether `b` is the tag of a compressed point (the parity of Y).
pub open spec fn is_compressed_tag(b: u8) -> bool {
    b == 0x02 || b == 0x03
}

impl CurveKind {
    /// Size in bytes of one coordinate.
    pub open spec fn field_len(self) -> nat {
        match self {
            CurveKind::NistP256 => 32,
            CurveKind::NistP384 => 48,
            CurveKind::Secp256k1 => 32,
        }
    }

    /// Size of a compressed point: a tag and X.
    pub open spec fn compressed_len(self) -> nat {
        1 + self.field_len()
    }

    /// Size of an uncompressed point: a tag, X and Y.
    pub open spec fn uncompressed_len(self) -> nat {
        1 + 2 * self.field_len()
    }

    /// Size of an uncompressed point without its tag: X and Y.
    pub open spec fn untagged_len(self) -> nat {
        2 * self.field_len()
    }

    /// The curve's name, as diagnostics print it.
    pub open spec fn name_view(self) -> Seq<char> {
        match self {
            CurveKind::NistP256 => "NistP256"@,
            CurveKind::NistP384 => "NistP384"@,
            CurveKind::Secp256k1 => "Secp256k1"@,
        }
    }

    pub fn field_size(self) -> (r: usize)
        ensures
            r == self.field_len(),
    {
        match self {
            CurveKind::NistP256 => 32,
            CurveKind::NistP384 => 48,
            CurveKind::Secp256k1 => 32,
        }
    }

    pub fn compressed_point_size(self) -> (r: usize)
        ensures
            r == self.compressed_len(),
    {
        1 + self.field_size()
    }

    pub fn uncompressed_point_size(self) -> (r: usize)
        ensures
            r == self.uncompressed_len(),
    {
        1 + 2 * self.field_size()
    }

    pub fn untagged_point_size(self) -> (r: usize)
        ensures
            r == self.untagged_len(),
    {
        2 * self.field_size()
    }

    pub fn name(self) -> (r: &'static str)
        ensures
            r@ == self.name_view(),
    {
        match self {
            CurveKind::NistP256 => "NistP256",
            CurveKind::NistP384 => "NistP384",
            CurveKind::Secp256k1 => "Secp256k1",
        }
    }
}

/// A compressed SEC1 point: its tag is `0x02` or `0x03` and its length is
/// the curve's compressed size.
#[derive(Debug)]
pub struct CompressedCurvePoint {
    curve: CurveKind,
    bytes: Vec<u8>,
}

impl View for CompressedCurvePoint {
    type V = Seq<u8>;

    closed spec fn view(&self) -> Seq<u8> {
        self.bytes@
    }
}

impl Clone for CompressedCurvePoint {
    fn clone(&self) -> (r: Self)
        ensures
            r@ == self@,
            r.curve_view() == self.curve_view(),
    {
        proof {
            use_type_invariant(self);
        }
        CompressedCurvePoint { curve: self.curve, bytes: self.bytes.clone() }
    }
}

impl CompressedCurvePoint {
    #[verifier::type_invariant]
    spec fn well_formed(self) -> bool {
        &&& self.bytes@.len() == self.curve.compressed_len()
        &&& is_compressed_tag(self.bytes@[0])
    }

    /// The curve the point belongs to.
    pub closed spec fn curve_view(&self) -> CurveKind {
        self.curve
    }

    /// Takes the encoding of a point; refuses a buffer whose first byte is
    /// not a compressed tag.
    pub fn new(curve: CurveKind, bytes: Vec<u8>) -> (r: Result<Self, Error>)
        requires
            bytes@.len() == curve.compressed_len(),
        ensures
            match r {
                Ok(p) => is_compressed_tag(bytes@[0]) && p@ == bytes@ && p.curve_view() == curve,
                Err(e) => !is_compressed_tag(bytes@[0]) && e == Error::key_invalid(curve, bytes.len()),
            },
    {
        let tag = bytes[0];
        if tag == 0x02 || tag == 0x03 {
            Ok(CompressedCurvePoint { curve, bytes })
        } else {
            Err(Error { kind: ErrorKind::KeyInvalid, curve, length: bytes.len() })
        }
    }

    pub fn curve(&self) -> (r: CurveKind)
        ensures
            r == self.curve_view(),
    {
        self.curve
    }

    pub fn as_bytes(&self) -> (r: &[u8])
        ensures
            r@ == self@,
            r@.len() == self.curve_view().compressed_len(),
            is_compressed_tag(r@[0]),
    {
        proof {
            use_type_invariant(self);
        }
        self.bytes.as_slice()
    }
}

/// An uncompressed SEC1 point: its tag is `0x04` and its length is the
/// curve's uncompressed size.
#[derive(Debug)]
pub struct UncompressedCurvePoint {
    curve: CurveKind,
    bytes: Vec<u8>,
}

impl View for UncompressedCurvePoint {
    type V = Seq<u8>;

    closed spec fn view(&self) -> Seq<u8> {
        self.bytes@
    }
}

impl Clone for UncompressedCurvePoint {
    fn clone(&self) -> (r: Self)
        ensures
            r@ == self@,
            r.curve_view() == self.curve_view(),
    {
        proof {
            use_type_invariant(self);
        }
        UncompressedCurvePoint { curve: self.curve, bytes: self.bytes.clone() }
    }
}

impl UncompressedCurvePoint {
    #[verifier::type_invariant]
    spec fn well_formed(self) -> bool {
        &&& self.bytes@.len() == self.curve.uncompressed_len()
        &&& self.bytes@[0] == UNCOMPRESSED_TAG
    }

    /// The curve the point belongs to.
    pub closed spec fn curve_view(&self) -> CurveKind {
        self.curve
    }

    /// Takes the encoding of a point; refuses a buffer whose first byte is
    /// not `0x04`.
    pub fn new(curve: CurveKind, bytes: Vec<u8>) -> (r: Result<Self, Error>)
        requires
            bytes@.len() == curve.uncompressed_len(),
        ensures
            match r {
                Ok(p) => bytes@[0] == UNCOMPRESSED_TAG && p@ == bytes@ && p.curve_view() == curve,
                Err(e) => bytes@[0] != UNCOMPRESSED_TAG && e == Error::key_invalid(curve, bytes.len()),
            },
    {
        if bytes[0] == UNCOMPRESSED_TAG {
            Ok(UncompressedCurvePoint { curve, bytes })
        } else {
            Err(Error { kind: ErrorKind::KeyInvalid, curve, length: bytes.len() })
        }
    }

    pub fn curve(&self) -> (r: CurveKind)
        ensures
            r == self.curve_view(),
    {
        self.curve
    }

    pub fn as_bytes(&self) -> (r: &[u8])
        ensures
            r@ == self@,
            r@.len() == self.curve_view().uncompressed_len(),
            r@[0] == UNCOMPRESSED_TAG,
    {
        proof {
            use_type_invariant(self);
        }
        self.bytes.as_slice()
    }
}

} // verus!
