use aucpace::group::{RistrettoPoint, Scalar};
use aucpace::hash::Hasher;
use curve25519_dalek::constants::{RISTRETTO_BASEPOINT_COMPRESSED, RISTRETTO_BASEPOINT_POINT};
use curve25519_dalek::ristretto::RistrettoPoint as DalekPoint;
use curve25519_dalek::scalar::Scalar as DalekScalar;
use sha2::{Digest, Sha512};

/// The group order, least significant byte first.
const ORDER: [u8; 32] = [
    0xed, 0xd3, 0xf5, 0x5c, 0x1a, 0x63, 0x12, 0x58, 0xd6, 0x9c, 0xf7, 0xa2, 0xde, 0xf9, 0xde, 0x14,
    0x00, 0x00, 0x00, 0x00, 0x00, 0x00, 0x00, 0x00, 0x00, 0x00, 0x00, 0x00, 0x00, 0x00, 0x00, 0x10,
];

fn small(n: u8) -> [u8; 32] {
    let mut bytes = [0u8; 32];
    bytes[0] = n;
    bytes
}

#[test]
fn one_encodes_as_one() {
    assert_eq!(Scalar::one().to_bytes(), small(1));
}

#[test]
fn reduced_input_is_kept() {
    assert_eq!(Scalar::from_bytes_mod_order(small(9)).to_bytes(), small(9));
}

#[test]
fn the_order_reduces_to_zero() {
    assert_eq!(Scalar::from_bytes_mod_order(ORDER).to_bytes(), [0u8; 32]);
}

#[test]
fn the_order_plus_one_reduces_to_one() {
    let mut bytes = ORDER;
    bytes[0] += 1;
    assert_eq!(Scalar::from_bytes_mod_order(bytes).to_bytes(), small(1));
}

#[test]
fn two_to_the_256_reduces_as_the_wide_input_says() {
    // 2^256 = 16 * 2^252, and 2^252 = order - c, so 2^256 = -16 c modulo the order.
    let mut wide = [0u8; 64];
    wide[32] = 1;
    let got = Scalar::from_bytes_mod_order_wide(&wide).to_bytes();
    let expected = DalekScalar::from_bytes_mod_order_wide(&wide).to_bytes();
    assert_eq!(got, expected);
    assert_ne!(got, [0u8; 32]);
    let mut low = [0u8; 64];
    low[0] = 5;
    assert_eq!(Scalar::from_bytes_mod_order_wide(&low).to_bytes(), small(5));
}

#[test]
fn scalar_from_hash_reduces_the_digest() {
    let mut hasher = Hasher::new();
    hasher.update(b"some bytes");
    let got = Scalar::from_hash(hasher).to_bytes();
    let digest: [u8; 64] = Sha512::digest(b"some bytes").into();
    assert_eq!(got, DalekScalar::from_bytes_mod_order_wide(&digest).to_bytes());
}

#[test]
fn scalars_multiply_modulo_the_order() {
    let six = Scalar::from_bytes_mod_order(small(6));
    let seven = Scalar::from_bytes_mod_order(small(7));
    assert_eq!(six.mul(&seven).to_bytes(), small(42));
    let mut minus_one = ORDER;
    minus_one[0] -= 1;
    let minus_one = Scalar::from_bytes_mod_order(minus_one);
    assert_eq!(minus_one.mul(&minus_one).to_bytes(), small(1));
}

#[test]
fn basepoint_has_the_listed_encoding() {
    let expected: [u8; 32] = [
        0xe2, 0xf2, 0xae, 0x0a, 0x6a, 0xbc, 0x4e, 0x71, 0xa8, 0x84, 0xa9, 0x61, 0xc5, 0x00, 0x51,
        0x5f, 0x58, 0xe3, 0x0b, 0x6a, 0xa5, 0x82, 0xdd, 0x8d, 0xb6, 0xa6, 0x59, 0x45, 0xe0, 0x8d,
        0x2d, 0x76,
    ];
    assert_eq!(RistrettoPoint::basepoint().to_bytes(), expected);
    assert_eq!(expected, RISTRETTO_BASEPOINT_COMPRESSED.to_bytes());
}

#[test]
fn canonical_encodings_decode_and_others_do_not() {
    let base = RISTRETTO_BASEPOINT_COMPRESSED.to_bytes();
    let decoded = RistrettoPoint::from_bytes(&base).expect("the base point decodes");
    assert_eq!(decoded.to_bytes(), base);
    assert!(RistrettoPoint::from_bytes(&[0u8; 32]).is_some());
    assert!(RistrettoPoint::from_bytes(&[0xff; 32]).is_none());
    assert!(RistrettoPoint::from_bytes(&small(1)).is_none());
}

#[test]
fn point_from_hash_maps_the_digest() {
    let mut hasher = Hasher::new();
    hasher.update(b"to the group");
    let got = RistrettoPoint::from_hash(hasher).to_bytes();
    let digest: [u8; 64] = Sha512::digest(b"to the group").into();
    let expected = DalekPoint::from_uniform_bytes(&digest).compress().to_bytes();
    assert_eq!(got, expected);
}

#[test]
fn multiples_of_the_basepoint() {
    let base = RistrettoPoint::basepoint();
    assert_eq!(base.mul(&Scalar::one()).to_bytes(), base.to_bytes());
    let zero = Scalar::from_bytes_mod_order([0u8; 32]);
    assert_eq!(base.mul(&zero).to_bytes(), [0u8; 32]);
    let five = Scalar::from_bytes_mod_order(small(5));
    let expected = (RISTRETTO_BASEPOINT_POINT * DalekScalar::from(5u8))
        .compress()
        .to_bytes();
    assert_eq!(base.mul(&five).to_bytes(), expected);
    assert_ne!(expected, base.to_bytes());
}

#[test]
fn multiplication_composes() {
    let base = RistrettoPoint::basepoint();
    let a = Scalar::from_bytes_mod_order(small(11));
    let b = Scalar::from_bytes_mod_order(small(13));
    let one_way = base.mul(&a).mul(&b).to_bytes();
    let other_way = base.mul(&b).mul(&a).to_bytes();
    assert_eq!(one_way, other_way);
    assert_eq!(one_way, base.mul(&a.mul(&b)).to_bytes());
}
