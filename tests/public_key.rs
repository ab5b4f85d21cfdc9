use ecdsa_public_key::curve::{CompressedCurvePoint, CurveKind, UncompressedCurvePoint};
use ecdsa_public_key::encoding::Encoding;
use ecdsa_public_key::error::{Error, ErrorKind};
use ecdsa_public_key::public_key::{EcdsaPublicKey, PublicKey};

fn compressed_bytes(tag: u8) -> Vec<u8> {
    let mut b = vec![tag];
    b.extend((0..32u8).map(|i| i.wrapping_mul(7).wrapping_add(1)));
    b
}

fn coordinates() -> Vec<u8> {
    (0..64u8).map(|i| i.wrapping_mul(3).wrapping_add(5)).collect()
}

fn uncompressed_bytes(tag: u8) -> Vec<u8> {
    let mut b = vec![tag];
    b.extend(coordinates());
    b
}

fn key_invalid(length: usize) -> Error {
    Error { kind: ErrorKind::KeyInvalid, curve: CurveKind::NistP256, length }
}

#[test]
fn curve_sizes() {
    assert_eq!(CurveKind::NistP256.compressed_point_size(), 33);
    assert_eq!(CurveKind::NistP256.uncompressed_point_size(), 65);
    assert_eq!(CurveKind::NistP256.untagged_point_size(), 64);
    assert_eq!(CurveKind::NistP384.compressed_point_size(), 49);
    assert_eq!(CurveKind::NistP384.uncompressed_point_size(), 97);
    assert_eq!(CurveKind::NistP384.untagged_point_size(), 96);
    assert_eq!(CurveKind::Secp256k1.compressed_point_size(), 33);
    assert_eq!(CurveKind::Secp256k1.uncompressed_point_size(), 65);
    assert_eq!(CurveKind::Secp256k1.name(), "Secp256k1");
}

#[test]
fn from_bytes_compressed() {
    for tag in [0x02u8, 0x03] {
        let bytes = compressed_bytes(tag);
        let key = EcdsaPublicKey::from_bytes(CurveKind::NistP256, &bytes).unwrap();
        assert!(matches!(key, EcdsaPublicKey::Compressed(_)));
        assert_eq!(key.as_bytes(), &bytes[..]);
        assert_eq!(key.curve(), CurveKind::NistP256);
    }
}

#[test]
fn from_bytes_uncompressed() {
    let bytes = uncompressed_bytes(0x04);
    let key = EcdsaPublicKey::from_bytes(CurveKind::NistP256, &bytes).unwrap();
    assert!(matches!(key, EcdsaPublicKey::Uncompressed(_)));
    assert_eq!(key.as_bytes(), &bytes[..]);
    assert_eq!(key.as_ref(), &bytes[..]);
}

#[test]
fn from_bytes_missing_tag_is_invalid() {
    let bytes = coordinates();
    let err = EcdsaPublicKey::from_bytes(CurveKind::NistP256, &bytes).unwrap_err();
    assert_eq!(err, key_invalid(64));
}

#[test]
fn from_bytes_bad_uncompressed_tag_is_invalid() {
    let bytes = uncompressed_bytes(0x05);
    let err = EcdsaPublicKey::from_bytes(CurveKind::NistP256, &bytes).unwrap_err();
    assert_eq!(err, key_invalid(65));
}

#[test]
fn from_bytes_bad_compressed_tag_is_invalid() {
    for tag in [0x00u8, 0x01, 0x04, 0xff] {
        let bytes = compressed_bytes(tag);
        let err = EcdsaPublicKey::from_bytes(CurveKind::NistP256, &bytes).unwrap_err();
        assert_eq!(err, key_invalid(33));
    }
}

#[test]
fn from_bytes_rejects_other_lengths() {
    for len in [0usize, 1, 32, 34, 49, 64, 66, 97, 200] {
        let mut bytes = vec![0x04u8; len];
        if len > 0 {
            bytes[0] = 0x02;
        }
        let err = EcdsaPublicKey::from_bytes(CurveKind::NistP256, &bytes).unwrap_err();
        assert_eq!(err, key_invalid(len));
    }
}

#[test]
fn from_bytes_uses_the_curve_sizes() {
    let mut compressed = vec![0x03u8];
    compressed.extend(vec![9u8; 48]);
    let key = EcdsaPublicKey::from_bytes(CurveKind::NistP384, &compressed).unwrap();
    assert!(matches!(key, EcdsaPublicKey::Compressed(_)));
    let mut uncompressed = vec![0x04u8];
    uncompressed.extend(vec![9u8; 96]);
    let key = EcdsaPublicKey::from_bytes(CurveKind::NistP384, &uncompressed).unwrap();
    assert!(matches!(key, EcdsaPublicKey::Uncompressed(_)));
    let err = EcdsaPublicKey::from_bytes(CurveKind::NistP384, &compressed_bytes(0x02)).unwrap_err();
    assert_eq!(err, Error { kind: ErrorKind::KeyInvalid, curve: CurveKind::NistP384, length: 33 });
}

#[test]
fn from_compressed_point_keeps_bytes() {
    let bytes = compressed_bytes(0x03);
    let key = EcdsaPublicKey::from_compressed_point(CurveKind::NistP256, bytes.clone()).unwrap();
    assert!(matches!(key, EcdsaPublicKey::Compressed(_)));
    assert_eq!(key.as_bytes(), &bytes[..]);
    let err = EcdsaPublicKey::from_compressed_point(CurveKind::NistP256, compressed_bytes(0x04))
        .unwrap_err();
    assert_eq!(err, key_invalid(33));
}

#[test]
fn from_untagged_point_adds_tag() {
    let xy = coordinates();
    let key = EcdsaPublicKey::from_untagged_point(CurveKind::NistP256, &xy);
    assert!(matches!(key, EcdsaPublicKey::Uncompressed(_)));
    let bytes = key.as_bytes();
    assert_eq!(bytes.len(), 65);
    assert_eq!(bytes[0], 0x04);
    assert_eq!(&bytes[1..], &xy[..]);
}

#[test]
fn round_trip_through_bytes() {
    let compressed =
        EcdsaPublicKey::from_compressed_point(CurveKind::NistP256, compressed_bytes(0x02)).unwrap();
    let again = EcdsaPublicKey::from_bytes(CurveKind::NistP256, compressed.as_bytes()).unwrap();
    assert!(again == compressed);
    let uncompressed = EcdsaPublicKey::from_untagged_point(CurveKind::NistP256, &coordinates());
    let again = EcdsaPublicKey::from_bytes(CurveKind::NistP256, uncompressed.as_bytes()).unwrap();
    assert!(again == uncompressed);
}

#[test]
fn as_bytes_length_follows_variant() {
    let compressed =
        EcdsaPublicKey::from_compressed_point(CurveKind::NistP256, compressed_bytes(0x02)).unwrap();
    assert_eq!(compressed.as_bytes().len(), CurveKind::NistP256.compressed_point_size());
    let uncompressed = EcdsaPublicKey::from_untagged_point(CurveKind::NistP256, &coordinates());
    assert_eq!(uncompressed.as_bytes().len(), CurveKind::NistP256.uncompressed_point_size());
}

#[test]
fn equality_is_variant_and_bytes() {
    let a = EcdsaPublicKey::from_bytes(CurveKind::NistP256, &compressed_bytes(0x02)).unwrap();
    let b = EcdsaPublicKey::from_bytes(CurveKind::NistP256, &compressed_bytes(0x02)).unwrap();
    let c = EcdsaPublicKey::from_bytes(CurveKind::NistP256, &compressed_bytes(0x03)).unwrap();
    let d = EcdsaPublicKey::from_bytes(CurveKind::Secp256k1, &compressed_bytes(0x02)).unwrap();
    let u = EcdsaPublicKey::from_bytes(CurveKind::NistP256, &uncompressed_bytes(0x04)).unwrap();
    assert!(a == b);
    assert!(a != c);
    assert!(a != d);
    assert!(a != u);
    assert!(a.clone() == a);
    assert!(u.clone() == u);
}

#[test]
fn encode_hex_is_lower_case_digits() {
    let key = EcdsaPublicKey::from_bytes(CurveKind::NistP256, &compressed_bytes(0x02)).unwrap();
    let text = key.encode(Encoding::Hex);
    let mut expected = String::new();
    for b in compressed_bytes(0x02) {
        expected.push_str(&format!("{:02x}", b));
    }
    assert_eq!(text, expected.into_bytes());
    assert_eq!(&text[..6], b"020108");
}

#[test]
fn encode_raw_is_the_bytes() {
    let key = EcdsaPublicKey::from_bytes(CurveKind::NistP256, &uncompressed_bytes(0x04)).unwrap();
    assert_eq!(key.encode(Encoding::Raw), uncompressed_bytes(0x04));
}

#[test]
fn decode_inverts_encode() {
    let keys = [
        EcdsaPublicKey::from_bytes(CurveKind::NistP256, &compressed_bytes(0x03)).unwrap(),
        EcdsaPublicKey::from_untagged_point(CurveKind::NistP256, &coordinates()),
    ];
    for key in keys.iter() {
        for scheme in [Encoding::Raw, Encoding::Hex] {
            let text = key.encode(scheme);
            let back = EcdsaPublicKey::decode(CurveKind::NistP256, &text, scheme).unwrap();
            assert!(back == *key);
        }
    }
}

#[test]
fn decode_hex_known_value() {
    let mut text = b"02".to_vec();
    text.extend(b"ab".repeat(32));
    let key = EcdsaPublicKey::decode(CurveKind::NistP256, &text, Encoding::Hex).unwrap();
    let mut expected = vec![0x02u8];
    expected.extend(vec![0xabu8; 32]);
    assert_eq!(key.as_bytes(), &expected[..]);
}

#[test]
fn decode_refuses_bad_hex() {
    let encoding_invalid = |length| Error {
        kind: ErrorKind::EncodingInvalid,
        curve: CurveKind::NistP256,
        length,
    };
    let mut upper = b"02".to_vec();
    upper.extend(b"AB".repeat(32));
    let err = EcdsaPublicKey::decode(CurveKind::NistP256, &upper, Encoding::Hex).unwrap_err();
    assert_eq!(err, encoding_invalid(66));
    let err = EcdsaPublicKey::decode(CurveKind::NistP256, b"0zz", Encoding::Hex).unwrap_err();
    assert_eq!(err, encoding_invalid(3));
    let too_long = b"04".repeat(66);
    let err = EcdsaPublicKey::decode(CurveKind::NistP256, &too_long, Encoding::Hex).unwrap_err();
    assert_eq!(err, encoding_invalid(132));
    let err =
        EcdsaPublicKey::decode(CurveKind::NistP256, &vec![4u8; 66], Encoding::Raw).unwrap_err();
    assert_eq!(err, encoding_invalid(66));
}

#[test]
fn decode_dispatches_on_decoded_length() {
    let text = b"04".repeat(64);
    let err = EcdsaPublicKey::decode(CurveKind::NistP256, &text, Encoding::Hex).unwrap_err();
    assert_eq!(err, key_invalid(64));
    let err = EcdsaPublicKey::decode(CurveKind::NistP256, b"", Encoding::Hex).unwrap_err();
    assert_eq!(err, key_invalid(0));
    let key =
        EcdsaPublicKey::decode(CurveKind::NistP256, &compressed_bytes(0x02), Encoding::Raw).unwrap();
    assert!(matches!(key, EcdsaPublicKey::Compressed(_)));
}

#[test]
fn debug_string_is_colon_delimited_hex() {
    let mut bytes = vec![0x02u8];
    bytes.extend(vec![0xabu8; 32]);
    let key = EcdsaPublicKey::from_bytes(CurveKind::NistP256, &bytes).unwrap();
    let pairs: Vec<String> = bytes.iter().map(|b| format!("{:02x}", b)).collect();
    let expected = format!("EcdsaPublicKey<NistP256>({})", pairs.join(":"));
    assert_eq!(key.to_debug_string(), expected);
    assert!(key.to_debug_string().starts_with("EcdsaPublicKey<NistP256>(02:ab:ab:"));
}

#[test]
fn points_check_their_tags() {
    let point = CompressedCurvePoint::new(CurveKind::NistP256, compressed_bytes(0x02)).unwrap();
    assert_eq!(point.as_bytes(), &compressed_bytes(0x02)[..]);
    assert_eq!(point.curve(), CurveKind::NistP256);
    assert!(CompressedCurvePoint::new(CurveKind::NistP256, compressed_bytes(0x04)).is_err());
    let point = UncompressedCurvePoint::new(CurveKind::NistP256, uncompressed_bytes(0x04)).unwrap();
    assert_eq!(point.clone().as_bytes(), &uncompressed_bytes(0x04)[..]);
    let err =
        UncompressedCurvePoint::new(CurveKind::NistP256, uncompressed_bytes(0x02)).unwrap_err();
    assert_eq!(err, key_invalid(65));
}

fn bytes_of_public_key<K: PublicKey + AsRef<[u8]>>(key: &K) -> Vec<u8> {
    key.as_ref().to_vec()
}

#[test]
fn key_is_a_public_key_and_clone_keeps_bytes() {
    let key = EcdsaPublicKey::from_bytes(CurveKind::NistP256, &compressed_bytes(0x03)).unwrap();
    assert_eq!(bytes_of_public_key(&key), compressed_bytes(0x03));
    let copy = key.clone();
    assert!(matches!(copy, EcdsaPublicKey::Compressed(_)));
    assert_eq!(copy.as_bytes(), key.as_bytes());
    assert_eq!(copy.curve(), CurveKind::NistP256);
}
