//! ECDSA public keys: compressed or uncompressed Weierstrass curve points.

use vstd::prelude::*;

use crate::curve::{
    is_compressed_tag, CompressedCurvePoint, CurveKind, UncompressedCurvePoint, UNCOMPRESSED_TAG,
};
use crate::encoding::{decoded, encoded, lemma_decode_encoded, Encoding};
use crate::error::{Error, ErrorKind};
use crate::util::{colon_hex, push_colon_delimited_hex};

verus! {

/// What a key is: its format, its curve and its SEC1 bytes.
pub ghost struct KeyView {
    pub compressed: bool,
    pub curve: CurveKind,
    pub bytes: Seq<u8>,
}

impl KeyView {
    /// The bytes have the size and the tag that the format asks for.
    pub open spec fn well_formed(self) -> bool {
        if self.compressed {
            self.bytes.len() == self.curve.compressed_len() && is_compressed_tag(self.bytes[0])
        } else {
            self.bytes.len() == self.curve.uncompressed_len() && self.bytes[0] == UNCOMPRESSED_TAG
        }
    }
}

/// The key that SEC1 bytes `b` make on `curve`: the length picks the format,
/// and the point refuses a wrong tag.
pub open spec fn parse_key(curve: CurveKind, b: Seq<u8>) -> Result<KeyView, Error> {
    if b.len() == curve.compressed_len() {
        if is_compressed_tag(b[0]) {
            Ok(KeyView { compressed: true, curve, bytes: b })
        } else {
            Err(Error::key_invalid(curve, b.len() as usize))
        }
    } else if b.len() == curve.uncompressed_len() {
        if b[0] == UNCOMPRESSED_TAG {
            Ok(KeyView { compressed: false, curve, bytes: b })
        } else {
            Err(Error::key_invalid(curve, b.len() as usize))
        }
    } else {
        Err(Error::key_invalid(curve, b.len() as usize))
    }
}

/// The key that text `s` holds on `curve` in `scheme`: the decoded bytes are
/// parsed as SEC1, provided they fit in an uncompressed point.
pub open spec fn decode_key(curve: CurveKind, scheme: Encoding, s: Seq<u8>) -> Result<KeyView, Error> {
    match decoded(scheme, s) {
        Some(d) => if d.len() <= curve.uncompressed_len() {
            parse_key(curve, d)
        } else {
            Err(Error::encoding_invalid(curve, s.len() as usize))
        },
        None => Err(Error::encoding_invalid(curve, s.len() as usize)),
    }
}

/// ECDSA public key.
#[derive(Debug)]
pub enum EcdsaPublicKey {
    /// Compressed Weierstrass curve point.
    Compressed(CompressedCurvePoint),
    /// Uncompressed Weierstrass curve point.
    Uncompressed(UncompressedCurvePoint),
}

impl View for EcdsaPublicKey {
    type V = KeyView;

    open spec fn view(&self) -> KeyView {
        match self {
            EcdsaPublicKey::Compressed(p) => KeyView {
                compressed: true,
                curve: p.curve_view(),
                bytes: p@,
            },
            EcdsaPublicKey::Uncompressed(p) => KeyView {
                compressed: false,
                curve: p.curve_view(),
                bytes: p@,
            },
        }
    }
}

/// The view of a constructor's result.
pub open spec fn result_view(r: Result<EcdsaPublicKey, Error>) -> Result<KeyView, Error> {
    match r {
        Ok(k) => Ok(k@),
        Err(e) => Err(e),
    }
}

impl EcdsaPublicKey {
    /// Makes a key of `curve` from SEC1 bytes, compressed or uncompressed as
    /// their length says.
    pub fn from_bytes(curve: CurveKind, bytes: &[u8]) -> (r: Result<Self, Error>)
        ensures
            result_view(r) == parse_key(curve, bytes@),
    {
        let length = bytes.len();
        if length == curve.compressed_point_size() {
            let array = vstd::slice::slice_to_vec(bytes);
            let point = CompressedCurvePoint::new(curve, array)?;
            Ok(EcdsaPublicKey::Compressed(point))
        } else if length == curve.uncompressed_point_size() {
            let array = vstd::slice::slice_to_vec(bytes);
            let point = UncompressedCurvePoint::new(curve, array)?;
            Ok(EcdsaPublicKey::Uncompressed(point))
        } else {
            Err(Error { kind: ErrorKind::KeyInvalid, curve, length })
        }
    }

    /// Makes a key of `curve` from a compressed point.
    pub fn from_compressed_point(curve: CurveKind, bytes: Vec<u8>) -> (r: Result<Self, Error>)
        requires
            bytes@.len() == curve.compressed_len(),
        ensures
            match r {
                Ok(k) => is_compressed_tag(bytes@[0]) && k@ == KeyView {
                    compressed: true,
                    curve,
                    bytes: bytes@,
                },
                Err(e) => !is_compressed_tag(bytes@[0]) && e == Error::key_invalid(curve, bytes.len()),
            },
    {
        let point = CompressedCurvePoint::new(curve, bytes)?;
        Ok(EcdsaPublicKey::Compressed(point))
    }

    /// Makes a key of `curve` from X and Y without the `0x04` tag.
    pub fn from_untagged_point(curve: CurveKind, bytes: &[u8]) -> (r: Self)
        requires
            bytes@.len() == curve.untagged_len(),
        ensures
            r@ == (KeyView { compressed: false, curve, bytes: seq![UNCOMPRESSED_TAG] + bytes@ }),
    {
        let mut tagged_bytes: Vec<u8> = Vec::with_capacity(curve.uncompressed_point_size());
        tagged_bytes.push(UNCOMPRESSED_TAG);
        let mut i: usize = 0;
        while i < bytes.len()
            invariant
                i <= bytes@.len(),
                tagged_bytes@ == seq![UNCOMPRESSED_TAG] + bytes@.subrange(0, i as int),
            decreases bytes@.len() - i,
        {
            tagged_bytes.push(bytes[i]);
            i = i + 1;
            assert(tagged_bytes@ =~= seq![UNCOMPRESSED_TAG] + bytes@.subrange(0, i as int));
        }
        assert(bytes@.subrange(0, bytes@.len() as int) =~= bytes@);
        EcdsaPublicKey::Uncompressed(UncompressedCurvePoint::new(curve, tagged_bytes).unwrap())
    }

    /// The key's SEC1 bytes, in the format it was made with.
    pub fn as_bytes(&self) -> (r: &[u8])
        ensures
            r@ == self@.bytes,
            self@.well_formed(),
    {
        match self {
            EcdsaPublicKey::Compressed(point) => point.as_bytes(),
            EcdsaPublicKey::Uncompressed(point) => point.as_bytes(),
        }
    }

    /// The curve the key belongs to.
    pub fn curve(&self) -> (r: CurveKind)
        ensures
            r == self@.curve,
    {
        match self {
            EcdsaPublicKey::Compressed(point) => point.curve(),
            EcdsaPublicKey::Uncompressed(point) => point.curve(),
        }
    }
}

impl EcdsaPublicKey {
    /// Decodes `encoded_key` with `scheme` and reads the bytes as a key of
    /// `curve`; bytes longer than an uncompressed point are refused.
    pub fn decode(curve: CurveKind, encoded_key: &[u8], scheme: Encoding) -> (r: Result<Self, Error>)
        ensures
            result_view(r) == decode_key(curve, scheme, encoded_key@),
    {
        let mut array: Vec<u8> = vec![0u8; curve.uncompressed_point_size()];
        match scheme.decode_into(encoded_key, &mut array) {
            Some(decoded_len) => {
                let decoded_bytes = vstd::slice::slice_subrange(array.as_slice(), 0, decoded_len);
                Self::from_bytes(curve, decoded_bytes)
            },
            None => Err(Error { kind: ErrorKind::EncodingInvalid, curve, length: encoded_key.len() }),
        }
    }

    /// The key's SEC1 bytes encoded with `scheme`.
    pub fn encode(&self, scheme: Encoding) -> (r: Vec<u8>)
        ensures
            r@ == encoded(scheme, self@.bytes),
    {
        scheme.encode_bytes(self.as_bytes())
    }

    /// Text for diagnostics: the curve and the bytes as colon-delimited hex.
    pub fn to_debug_string(&self) -> (r: String)
        ensures
            r@ == "EcdsaPublicKey<"@ + self@.curve.name_view() + ">("@ + colon_hex(self@.bytes)
                + ")"@,
    {
        let mut out = String::from_str("EcdsaPublicKey<");
        out.append(self.curve().name());
        out.append(">(");
        push_colon_delimited_hex(&mut out, self.as_bytes());
        out.append(")");
        out
    }
}

impl AsRef<[u8]> for EcdsaPublicKey {
    fn as_ref(&self) -> (r: &[u8])
        ensures
            r@ == self@.bytes,
    {
        self.as_bytes()
    }
}

impl Clone for EcdsaPublicKey {
    fn clone(&self) -> (r: Self)
        ensures
            r@ == self@,
    {
        match self {
            EcdsaPublicKey::Compressed(point) => EcdsaPublicKey::Compressed(point.clone()),
            EcdsaPublicKey::Uncompressed(point) => EcdsaPublicKey::Uncompressed(point.clone()),
        }
    }
}

/// Marks a type whose values are public keys, usable for verifying signatures.
pub trait PublicKey {}

impl PublicKey for EcdsaPublicKey {}

/// Whether two byte strings are equal.
fn bytes_equal(a: &[u8], b: &[u8]) -> (r: bool)
    ensures
        r == (a@ == b@),
{
    if a.len() != b.len() {
        return false;
    }
    let mut i: usize = 0;
    while i < a.len()
        invariant
            i <= a@.len() == b@.len(),
            forall|j: int| 0 <= j < i ==> a@[j] == b@[j],
        decreases a@.len() - i,
    {
        if a[i] != b[i] {
            return false;
        }
        i = i + 1;
    }
    assert(a@ =~= b@);
    true
}

impl PartialEq for EcdsaPublicKey {
    fn eq(&self, other: &Self) -> (r: bool) {
        match (self, other) {
            (EcdsaPublicKey::Compressed(a), EcdsaPublicKey::Compressed(b)) => a.curve() == b.curve()
                && bytes_equal(a.as_bytes(), b.as_bytes()),
            (EcdsaPublicKey::Uncompressed(a), EcdsaPublicKey::Uncompressed(b)) => a.curve()
                == b.curve() && bytes_equal(a.as_bytes(), b.as_bytes()),
            _ => false,
        }
    }
}

impl vstd::std_specs::cmp::PartialEqSpecImpl for EcdsaPublicKey {
    open spec fn obeys_eq_spec() -> bool {
        true
    }

    open spec fn eq_spec(&self, other: &EcdsaPublicKey) -> bool {
        self@ == other@
    }
}

impl Eq for EcdsaPublicKey {}

/// A key read back from its own bytes is the same key: for a well-formed
/// key of either format, parsing its bytes on its curve gives it back.
pub proof fn lemma_from_bytes_of_as_bytes(k: KeyView)
    requires
        k.well_formed(),
    ensures
        parse_key(k.curve, k.bytes) == Ok::<KeyView, Error>(k),
{
}

/// Bytes whose length is neither the compressed nor the uncompressed size
/// of the curve are refused with `KeyInvalid`, whatever they hold.
pub proof fn lemma_wrong_length_refused(curve: CurveKind, b: Seq<u8>)
    requires
        b.len() != curve.compressed_len(),
        b.len() != curve.uncompressed_len(),
    ensures
        parse_key(curve, b) == Err::<KeyView, Error>(Error::key_invalid(curve, b.len() as usize)),
{
}

/// Decoding the encoding of a well-formed key, with the same scheme, gives
/// the key back.
pub proof fn lemma_decode_of_encode(k: KeyView, scheme: Encoding)
    requires
        k.well_formed(),
    ensures
        decode_key(k.curve, scheme, encoded(scheme, k.bytes)) == Ok::<KeyView, Error>(k),
{
    lemma_decode_encoded(scheme, k.bytes);
    lemma_from_bytes_of_as_bytes(k);
}

} // verus!
