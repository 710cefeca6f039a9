//! Scalars and group elements of Ristretto255.
//!
//! A [`Scalar`] is held as the canonical 32-byte little-endian encoding of an
//! integer below the group order, a [`RistrettoPoint`] as the canonical
//! 32-byte encoding of a group element. The arithmetic is done by
//! `curve25519-dalek`.

use crate::hash::{absorbed, sha512, Hasher};
use curve25519_dalek::constants::RISTRETTO_BASEPOINT_POINT;
use curve25519_dalek::ristretto::CompressedRistretto;
use curve25519_dalek::traits::IsIdentity;
use vstd::arithmetic::div_mod::{lemma_mul_mod_noop_left, lemma_mul_mod_noop_right, lemma_small_mod};
use vstd::prelude::*;

verus! {

/// The order of the Ristretto255 group,
/// 2^252 + 27742317777372353535851937790883648493.
pub open spec fn group_order() -> nat {
    7237005577332262213973186563042994240857116359379907606001950938285454250989nat
}

/// The integer that `bytes` encodes, least significant byte first.
pub open spec fn le_nat(bytes: Seq<u8>) -> nat
    decreases bytes.len(),
{
    if bytes.len() == 0 {
        0
    } else {
        bytes[0] as nat + 256 * le_nat(bytes.drop_first())
    }
}

/// A sequence of zero bytes encodes zero.
pub proof fn lemma_le_nat_zeros(bytes: Seq<u8>)
    requires
        forall|i: int| 0 <= i < bytes.len() ==> bytes[i] == 0,
    ensures
        le_nat(bytes) == 0,
    decreases bytes.len(),
{
    if bytes.len() > 0 {
        lemma_le_nat_zeros(bytes.drop_first());
    }
}

/// A sequence with a byte that is not zero encodes a positive integer.
pub proof fn lemma_le_nat_positive(bytes: Seq<u8>, i: int)
    requires
        0 <= i < bytes.len(),
        bytes[i] != 0,
    ensures
        le_nat(bytes) > 0,
    decreases bytes.len(),
{
    if i > 0 {
        lemma_le_nat_positive(bytes.drop_first(), i - 1);
    }
}

/// The multiplicative inverse of `k` modulo the group order, where `k` has
/// one.
pub open spec fn scalar_inverse(k: nat) -> nat {
    choose|inv: nat| #[trigger] inverse_of(k, inv)
}

/// Whether `inv` is below the group order and the inverse of `k` modulo it.
pub open spec fn inverse_of(k: nat, inv: nat) -> bool {
    inv < group_order() && (k * inv) % group_order() == 1
}

/// A scalar has at most one inverse below the group order.
pub proof fn lemma_inverse_unique(k: nat, a: nat, b: nat)
    requires
        a < group_order(),
        b < group_order(),
        (k * a) % group_order() == 1,
        (k * b) % group_order() == 1,
    ensures
        a == b,
{
    let m = group_order() as int;
    let (k, a, b) = (k as int, a as int, b as int);
    // a = a * (k * b) = (a * k) * b = b, modulo the order
    lemma_mul_mod_noop_right(a, k * b, m);
    assert(a * 1 == a);
    assert((a * (k * b)) % m == a % m);
    assert(a * (k * b) == (k * a) * b) by (nonlinear_arith);
    lemma_mul_mod_noop_left(k * a, b, m);
    assert(1 * b == b);
    assert(((k * a) * b) % m == b % m);
    lemma_small_mod(a as nat, m as nat);
    lemma_small_mod(b as nat, m as nat);
}

/// Whether `bytes` is the canonical encoding of a group element, that is,
/// whether `CompressedRistretto::decompress` accepts it.
pub uninterp spec fn ristretto_decodes(bytes: Seq<u8>) -> bool;

/// The encoding of the `k`-fold multiple of the group element that `point`
/// encodes.
pub uninterp spec fn ristretto_mul(point: Seq<u8>, k: nat) -> Seq<u8>;

/// The encoding of the group element that `RistrettoPoint::from_uniform_bytes`
/// maps 64 bytes to.
pub uninterp spec fn ristretto_from_uniform_bytes(bytes: Seq<u8>) -> Seq<u8>;

/// The encoding of the Ristretto255 base point.
pub open spec fn basepoint_encoding() -> Seq<u8> {
    seq![
        0xe2u8, 0xf2, 0xae, 0x0a, 0x6a, 0xbc, 0x4e, 0x71, 0xa8, 0x84, 0xa9, 0x61, 0xc5, 0x00,
        0x51, 0x5f, 0x58, 0xe3, 0x0b, 0x6a, 0xa5, 0x82, 0xdd, 0x8d, 0xb6, 0xa6, 0x59, 0x45, 0xe0,
        0x8d, 0x2d, 0x76,
    ]
}

/// `Scalar::from_bytes_mod_order` reduces the 256-bit little-endian integer
/// modulo the group order; `to_bytes` gives the canonical encoding of the
/// result.
#[verifier::external_body]
fn dalek_scalar_reduce(bytes: [u8; 32]) -> (reduced: [u8; 32])
    ensures
        le_nat(reduced@) == le_nat(bytes@) % group_order(),
{
    curve25519_dalek::scalar::Scalar::from_bytes_mod_order(bytes).to_bytes()
}

/// `Scalar::from_bytes_mod_order_wide` reduces the 512-bit little-endian
/// integer modulo the group order.
#[verifier::external_body]
fn dalek_scalar_reduce_wide(bytes: &[u8; 64]) -> (reduced: [u8; 32])
    ensures
        le_nat(reduced@) == le_nat(bytes@) % group_order(),
{
    curve25519_dalek::scalar::Scalar::from_bytes_mod_order_wide(bytes).to_bytes()
}

/// `Scalar::from_hash` finalizes the hasher and reduces the 64-byte digest,
/// read as a little-endian integer, modulo the group order.
#[verifier::external_body]
fn dalek_scalar_from_hash(hasher: Hasher) -> (reduced: [u8; 32])
    ensures
        le_nat(reduced@) == le_nat(sha512(absorbed(hasher))) % group_order(),
{
    curve25519_dalek::scalar::Scalar::from_hash(hasher.inner).to_bytes()
}

/// `Mul` on two dalek scalars multiplies them modulo the group order.
#[verifier::external_body]
fn dalek_scalar_mul(a: &[u8; 32], b: &[u8; 32]) -> (product: [u8; 32])
    ensures
        le_nat(product@) == ((le_nat(a@) % group_order()) * (le_nat(b@) % group_order()))
            % group_order(),
{
    let a = curve25519_dalek::scalar::Scalar::from_bytes_mod_order(*a);
    let b = curve25519_dalek::scalar::Scalar::from_bytes_mod_order(*b);
    (a * b).to_bytes()
}

/// `Scalar::invert` gives the multiplicative inverse modulo the group order
/// of a scalar that is not zero.
#[verifier::external_body]
fn dalek_scalar_invert(a: &[u8; 32]) -> (inverse: [u8; 32])
    requires
        le_nat(a@) % group_order() != 0,
    ensures
        le_nat(inverse@) < group_order(),
        ((le_nat(a@) % group_order()) * le_nat(inverse@)) % group_order() == 1,
{
    curve25519_dalek::scalar::Scalar::from_bytes_mod_order(*a).invert().to_bytes()
}

/// `CompressedRistretto::decompress` returns a point exactly for canonical
/// encodings.
#[verifier::external_body]
fn dalek_point_decodes(bytes: &[u8; 32]) -> (decodes: bool)
    ensures
        decodes == ristretto_decodes(bytes@),
{
    CompressedRistretto(*bytes).decompress().is_some()
}

/// `RistrettoPoint::from_hash` finalizes the hasher and hands the 64-byte
/// digest to `RistrettoPoint::from_uniform_bytes`; `compress` gives the
/// canonical encoding of the result.
#[verifier::external_body]
fn dalek_point_from_hash(hasher: Hasher) -> (point: [u8; 32])
    ensures
        point@ == ristretto_from_uniform_bytes(sha512(absorbed(hasher))),
        ristretto_decodes(point@),
{
    curve25519_dalek::ristretto::RistrettoPoint::from_hash(hasher.inner).compress().to_bytes()
}

/// `Mul` of a dalek point by a dalek scalar. There is a product exactly when
/// `point` decodes; it depends on the scalar only through its residue modulo
/// the group order, and its encoding is again canonical.
#[verifier::external_body]
fn dalek_point_mul(point: &[u8; 32], scalar: &[u8; 32]) -> (product: Option<[u8; 32]>)
    ensures
        product.is_some() == ristretto_decodes(point@),
        product matches Some(p) ==> p@ == ristretto_mul(point@, le_nat(scalar@) % group_order())
            && ristretto_decodes(p@),
{
    let scalar = curve25519_dalek::scalar::Scalar::from_bytes_mod_order(*scalar);
    match CompressedRistretto(*point).decompress() {
        Some(p) => Some((p * scalar).compress().to_bytes()),
        None => None,
    }
}

/// The encoding of the identity element: 32 zero bytes.
pub open spec fn identity_encoding() -> Seq<u8> {
    Seq::new(32, |i: int| 0u8)
}

/// `IsIdentity::is_identity` on the decompressed point. The encoding is
/// canonical and the identity encodes as 32 zero bytes, so a point that
/// decodes is the identity exactly when its encoding is all zero.
#[verifier::external_body]
fn dalek_point_is_identity(point: &[u8; 32]) -> (identity: Option<bool>)
    ensures
        identity.is_some() == ristretto_decodes(point@),
        identity matches Some(b) ==> b == (point@ == identity_encoding()),
{
    match CompressedRistretto(*point).decompress() {
        Some(p) => Some(p.is_identity()),
        None => None,
    }
}

/// `RISTRETTO_BASEPOINT_POINT` compresses to the bytes that the crate lists
/// as `RISTRETTO_BASEPOINT_COMPRESSED`.
#[verifier::external_body]
fn dalek_basepoint() -> (point: [u8; 32])
    ensures
        point@ == basepoint_encoding(),
        ristretto_decodes(point@),
{
    RISTRETTO_BASEPOINT_POINT.compress().to_bytes()
}

/// An integer modulo the group order.
#[derive(Clone, Copy)]
pub struct Scalar {
    bytes: [u8; 32],
}

impl Scalar {
    #[verifier::type_invariant]
    spec fn canonical(self) -> bool {
        le_nat(self.bytes@) < group_order()
    }

    /// The integer below the group order that this scalar stands for.
    pub closed spec fn view(&self) -> nat {
        le_nat(self.bytes@)
    }

    /// The scalar 1.
    pub fn one() -> (s: Self)
        ensures
            s@ == 1,
    {
        let mut bytes = [0u8; 32];
        bytes[0] = 1;
        proof {
            lemma_le_nat_zeros(bytes@.drop_first());
        }
        Scalar { bytes }
    }

    /// Reduces a 256-bit little-endian integer modulo the group order.
    pub fn from_bytes_mod_order(bytes: [u8; 32]) -> (s: Self)
        ensures
            s@ == le_nat(bytes@) % group_order(),
    {
        let reduced = dalek_scalar_reduce(bytes);
        Scalar { bytes: reduced }
    }

    /// Reduces a 512-bit little-endian integer modulo the group order.
    pub fn from_bytes_mod_order_wide(bytes: &[u8; 64]) -> (s: Self)
        ensures
            s@ == le_nat(bytes@) % group_order(),
    {
        let reduced = dalek_scalar_reduce_wide(bytes);
        Scalar { bytes: reduced }
    }

    /// Ends the hash computation and reduces its digest, read as a 512-bit
    /// little-endian integer, modulo the group order.
    pub fn from_hash(hasher: Hasher) -> (s: Self)
        ensures
            s@ == le_nat(sha512(hasher@)) % group_order(),
    {
        let reduced = dalek_scalar_from_hash(hasher);
        Scalar { bytes: reduced }
    }

    /// The canonical 32-byte little-endian encoding.
    pub fn to_bytes(&self) -> (bytes: [u8; 32])
        ensures
            le_nat(bytes@) == self@,
            self@ < group_order(),
    {
        proof {
            use_type_invariant(self);
        }
        self.bytes
    }

    /// Whether this is the scalar 0. Every byte is looked at, whatever the
    /// scalar is.
    pub fn is_zero(&self) -> (zero: bool)
        ensures
            zero == (self@ == 0),
    {
        let mut acc: u8 = 0;
        let mut i: usize = 0;
        while i < 32
            invariant
                i <= 32,
                (acc == 0) == (forall|j: int| 0 <= j < i ==> self.bytes@[j] == 0),
            decreases 32 - i,
        {
            let ghost before = acc;
            let byte: u8 = self.bytes[i];
            acc |= byte;
            assert((acc == 0) == (before == 0 && byte == 0)) by (bit_vector)
                requires
                    acc == before | byte,
            ;
            i += 1;
        }
        proof {
            if acc == 0 {
                lemma_le_nat_zeros(self.bytes@);
            } else {
                let j = choose|j: int| 0 <= j < 32 && self.bytes@[j] != 0;
                lemma_le_nat_positive(self.bytes@, j);
            }
        }
        acc == 0
    }

    /// The multiplicative inverse modulo the group order. Zero has none.
    pub fn invert(&self) -> (inverse: Option<Scalar>)
        ensures
            inverse.is_some() == (self@ != 0),
            inverse matches Some(inv) ==> inv@ == scalar_inverse(self@) && (self@ * inv@)
                % group_order() == 1,
    {
        proof {
            use_type_invariant(self);
        }
        if self.is_zero() {
            None
        } else {
            let inverse = dalek_scalar_invert(&self.bytes);
            proof {
                let found = le_nat(inverse@);
                assert(inverse_of(self@, found));
                lemma_inverse_unique(self@, found, scalar_inverse(self@));
            }
            Some(Scalar { bytes: inverse })
        }
    }

    /// The product modulo the group order.
    pub fn mul(&self, other: &Scalar) -> (product: Scalar)
        ensures
            product@ == (self@ * other@) % group_order(),
            self@ < group_order(),
            other@ < group_order(),
    {
        proof {
            use_type_invariant(self);
            use_type_invariant(other);
        }
        let product = dalek_scalar_mul(&self.bytes, &other.bytes);
        Scalar { bytes: product }
    }
}

/// An element of the Ristretto255 group.
#[derive(Clone, Copy)]
pub struct RistrettoPoint {
    bytes: [u8; 32],
}

impl RistrettoPoint {
    #[verifier::type_invariant]
    spec fn decodable(self) -> bool {
        ristretto_decodes(self.bytes@)
    }

    /// The canonical 32-byte encoding of the element.
    pub closed spec fn view(&self) -> Seq<u8> {
        self.bytes@
    }

    /// The base point of the group.
    pub fn basepoint() -> (point: Self)
        ensures
            point@ == basepoint_encoding(),
    {
        let bytes = dalek_basepoint();
        RistrettoPoint { bytes }
    }

    /// Decodes a received element. Bytes that are not a canonical encoding
    /// are refused.
    pub fn from_bytes(bytes: &[u8; 32]) -> (decoded: Option<Self>)
        ensures
            decoded.is_some() == ristretto_decodes(bytes@),
            decoded matches Some(point) ==> point@ == bytes@,
    {
        if dalek_point_decodes(bytes) {
            Some(RistrettoPoint { bytes: *bytes })
        } else {
            None
        }
    }

    /// Ends the hash computation and maps its digest to a group element.
    pub fn from_hash(hasher: Hasher) -> (point: Self)
        ensures
            point@ == ristretto_from_uniform_bytes(sha512(hasher@)),
    {
        let bytes = dalek_point_from_hash(hasher);
        RistrettoPoint { bytes }
    }

    /// The canonical encoding, which always decodes again.
    pub fn to_bytes(&self) -> (bytes: [u8; 32])
        ensures
            bytes@ == self@,
            ristretto_decodes(self@),
    {
        proof {
            use_type_invariant(self);
        }
        self.bytes
    }

    /// Whether this is the identity element of the group.
    pub open spec fn is_identity_spec(&self) -> bool {
        self@ == identity_encoding()
    }

    /// Whether this is the identity element of the group.
    #[verifier::when_used_as_spec(is_identity_spec)]
    pub fn is_identity(&self) -> (identity: bool)
        ensures
            identity == self.is_identity_spec(),
    {
        proof {
            use_type_invariant(self);
        }
        match dalek_point_is_identity(&self.bytes) {
            Some(identity) => identity,
            None => vstd::pervasive::unreached(),
        }
    }

    /// The multiple of this element by `scalar`.
    pub fn mul(&self, scalar: &Scalar) -> (product: RistrettoPoint)
        ensures
            product@ == ristretto_mul(self@, scalar@),
    {
        proof {
            use_type_invariant(self);
            use_type_invariant(scalar);
        }
        match dalek_point_mul(&self.bytes, &scalar.bytes) {
            Some(bytes) => RistrettoPoint { bytes },
            None => vstd::pervasive::unreached(),
        }
    }
}

} // verus!
