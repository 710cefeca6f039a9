//! Building blocks of the exchange: nonces, session identifiers, key pairs,
//! session keys and authenticators.
//!
//! Nothing here draws randomness. Where fresh bytes are needed, the caller
//! asks its generator for them and passes on what it got: the bytes, or
//! `None` if the generator failed.

use crate::convert::to_array;
use crate::error::Error;
use crate::group::{
    basepoint_encoding, group_order, le_nat, ristretto_from_uniform_bytes, ristretto_mul,
    RistrettoPoint, Scalar,
};
use crate::hash::{domain_tag, sha512, Hasher, H0, H1, H2, H3, H4, H5};
use vstd::prelude::*;

verus! {

/// The session identifier that two nonces determine.
pub open spec fn ssid_of_nonces(s: Seq<u8>, t: Seq<u8>) -> Seq<u8> {
    sha512(domain_tag(0) + s + t)
}

/// The encoding of the generator that the session identifier, the
/// password-related string and the channel identifier determine.
pub open spec fn password_generator(ssid: Seq<u8>, prs: Seq<u8>, ci: Seq<u8>) -> Seq<u8> {
    ristretto_from_uniform_bytes(sha512(domain_tag(1) + ssid + prs + ci))
}

/// The private key that 64 drawn bytes determine: their digest, reduced
/// modulo the group order.
pub open spec fn private_key_of(drawn: Seq<u8>) -> nat {
    le_nat(sha512(drawn)) % group_order()
}

/// The first session key: the digest of the session identifier and of the
/// encoded shared group element.
pub open spec fn first_session_key(ssid: Seq<u8>, priv_key: nat, pub_key: Seq<u8>) -> Seq<u8> {
    sha512(domain_tag(2) + ssid + ristretto_mul(pub_key, priv_key))
}

/// The authenticator that the server sends.
pub open spec fn authenticator_ta(ssid: Seq<u8>, sk1: Seq<u8>) -> Seq<u8> {
    sha512(domain_tag(3) + ssid + sk1)
}

/// The authenticator that the client sends.
pub open spec fn authenticator_tb(ssid: Seq<u8>, sk1: Seq<u8>) -> Seq<u8> {
    sha512(domain_tag(4) + ssid + sk1)
}

/// The final session key.
pub open spec fn session_key(ssid: Seq<u8>, sk1: Seq<u8>) -> Seq<u8> {
    sha512(domain_tag(5) + ssid + sk1)
}

/// Turns the outcome of drawing `N` bytes into a nonce.
///
/// `drawn` is what the generator produced, or `None` if it failed.
pub fn generate_nonce<const N: usize>(drawn: Option<[u8; N]>) -> (nonce: Result<[u8; N], Error>)
    ensures
        drawn is None ==> nonce == Err::<[u8; N], Error>(Error::Rng),
        drawn matches Some(bytes) ==> nonce == Ok::<[u8; N], Error>(bytes),
{
    match drawn {
        Some(bytes) => Ok(bytes),
        None => Err(Error::Rng),
    }
}

/// Computes the session identifier from the server's nonce `s` and the
/// client's nonce `t`.
pub fn compute_ssid<const K1: usize>(s: [u8; K1], t: [u8; K1]) -> (ssid: [u8; 64])
    ensures
        ssid@ == ssid_of_nonces(s@, t@),
{
    let mut hasher = H0();
    hasher.update(s.as_slice());
    hasher.update(t.as_slice());
    hasher.finalize()
}

/// Turns the outcome of drawing 64 bytes into a scalar: the digest of the
/// bytes, reduced modulo the group order.
///
/// `drawn` is what the generator produced, or `None` if it failed.
pub fn random_scalar(drawn: Option<[u8; 64]>) -> (scalar: Result<Scalar, Error>)
    ensures
        drawn is None ==> scalar is Err && scalar->Err_0 == Error::Rng,
        drawn matches Some(bytes) ==> scalar is Ok && scalar->Ok_0@ == private_key_of(bytes@),
{
    let rng_bytes = match drawn {
        Some(bytes) => bytes,
        None => {
            return Err(Error::Rng);
        },
    };
    let mut rng_hasher = Hasher::new();
    rng_hasher.update(rng_bytes.as_slice());
    assert(Seq::<u8>::empty() + rng_bytes@ =~= rng_bytes@);
    Ok(Scalar::from_hash(rng_hasher))
}

/// Generates a Diffie-Hellman key pair for the CPace substep.
///
/// The generator is bound to the session identifier, the password-related
/// string and the channel identifier. The private key is derived from 64
/// drawn bytes; `drawn` is `None` if the generator of random bytes failed.
pub fn generate_keypair(drawn: Option<[u8; 64]>, ssid: [u8; 64], prs: [u8; 32], ci: &[u8]) -> (pair:
    Result<(Scalar, RistrettoPoint), Error>)
    ensures
        drawn is None ==> pair is Err && pair->Err_0 == Error::Rng,
        drawn matches Some(bytes) ==> pair is Ok && pair->Ok_0.0@ == private_key_of(bytes@)
            && pair->Ok_0.1@ == ristretto_mul(
            password_generator(ssid@, prs@, ci@),
            private_key_of(bytes@),
        ),
{
    let mut hasher = H1();
    hasher.update(ssid.as_slice());
    hasher.update(prs.as_slice());
    hasher.update(ci);

    let generator = RistrettoPoint::from_hash(hasher);
    let priv_key = match random_scalar(drawn) {
        Ok(scalar) => scalar,
        Err(e) => {
            return Err(e);
        },
    };
    let cofactor = Scalar::one();
    let pub_key = generator.mul(&priv_key.mul(&cofactor));

    Ok((priv_key, pub_key))
}

/// Computes the first session key from our private key and the other
/// participant's public key.
pub fn compute_first_session_key(ssid: [u8; 64], priv_key: Scalar, pub_key: RistrettoPoint) -> (sk1:
    [u8; 64])
    ensures
        sk1@ == first_session_key(ssid@, priv_key@, pub_key@),
{
    let shared_point = pub_key.mul(&priv_key);

    let mut hasher = H2();
    hasher.update(ssid.as_slice());
    hasher.update(shared_point.to_bytes().as_slice());

    hasher.finalize()
}

/// Computes the two authenticators: the one that the server sends and the
/// one that the client sends, in that order.
pub fn compute_authenticator_messages(ssid: [u8; 64], sk1: [u8; 64]) -> (tags: ([u8; 64], [u8; 64]))
    ensures
        tags.0@ == authenticator_ta(ssid@, sk1@),
        tags.1@ == authenticator_tb(ssid@, sk1@),
{
    let mut ta_hasher = H3();
    ta_hasher.update(ssid.as_slice());
    ta_hasher.update(sk1.as_slice());

    let mut tb_hasher = H4();
    tb_hasher.update(ssid.as_slice());
    tb_hasher.update(sk1.as_slice());

    (ta_hasher.finalize(), tb_hasher.finalize())
}

/// Computes the final session key.
pub fn compute_session_key(ssid: [u8; 64], sk1: [u8; 64]) -> (sk: [u8; 64])
    ensures
        sk@ == session_key(ssid@, sk1@),
{
    session_key_of(ssid.as_slice(), sk1.as_slice())
}

/// Computes the final session key from borrowed bytes, so that a first
/// session key held in a zeroizing buffer need not be copied out of it.
pub fn session_key_of(ssid: &[u8], sk1: &[u8]) -> (sk: [u8; 64])
    ensures
        sk@ == session_key(ssid@, sk1@),
{
    let mut hasher = H5();
    hasher.update(ssid);
    hasher.update(sk1);
    hasher.finalize()
}

/// The part of a password hash in PHC form that the exchange reads.
pub struct PasswordHash {
    /// The output of the password hashing function, if the hash holds one.
    pub hash: Option<Vec<u8>>,
}

/// What [`scalar_from_hash`] makes of the output of a password hash.
pub open spec fn scalar_of_password_hash(hash: Option<Seq<u8>>) -> Result<nat, Error> {
    match hash {
        None => Err(Error::HashEmpty),
        Some(bytes) => if bytes.len() == 32 || bytes.len() == 64 {
            Ok(le_nat(bytes) % group_order())
        } else {
            Err(Error::HashSizeInvalid)
        },
    }
}

/// Computes a scalar from the output of a password hash.
///
/// Outputs of 32 and of 64 bytes are accepted: either is read as a
/// little-endian integer and reduced modulo the group order.
pub fn scalar_from_hash(pw_hash: &PasswordHash) -> (scalar: Result<Scalar, Error>)
    ensures
        match scalar_of_password_hash(
            match pw_hash.hash {
                Some(bytes) => Some(bytes@),
                None => None,
            },
        ) {
            Ok(k) => scalar is Ok && scalar->Ok_0@ == k,
            Err(e) => scalar is Err && scalar->Err_0 == e,
        },
{
    let hash_bytes = match &pw_hash.hash {
        Some(bytes) => bytes.as_slice(),
        None => {
            return Err(Error::HashEmpty);
        },
    };

    // support both 32 and 64 byte hashes
    if hash_bytes.len() == 32 {
        let arr: [u8; 32] = to_array(hash_bytes);
        assert(arr@ =~= hash_bytes@);
        Ok(Scalar::from_bytes_mod_order(arr))
    } else if hash_bytes.len() == 64 {
        let arr: [u8; 64] = to_array(hash_bytes);
        assert(arr@ =~= hash_bytes@);
        Ok(Scalar::from_bytes_mod_order_wide(&arr))
    } else {
        Err(Error::HashSizeInvalid)
    }
}

/// Generates the server's key pair for the augmentation layer: a private
/// key derived from 64 drawn bytes, and the base point raised to it.
///
/// `drawn` is `None` if the generator of random bytes failed.
pub fn generate_server_keypair(drawn: Option<[u8; 64]>) -> (pair: Result<
    (Scalar, RistrettoPoint),
    Error,
>)
    ensures
        drawn is None ==> pair is Err && pair->Err_0 == Error::Rng,
        drawn matches Some(bytes) ==> pair is Ok && pair->Ok_0.0@ == private_key_of(bytes@)
            && pair->Ok_0.1@ == ristretto_mul(basepoint_encoding(), private_key_of(bytes@)),
{
    // For Ristretto255 the cofactor is 1.
    let cofactor = Scalar::one();
    let private = match random_scalar(drawn) {
        Ok(scalar) => scalar,
        Err(e) => {
            return Err(e);
        },
    };
    let public = RistrettoPoint::basepoint().mul(&private.mul(&cofactor));

    Ok((private, public))
}

} // verus!
