//! Domain-separated transcript hashing.
//!
//! One hash primitive, SHA-512, serves six roles. Each role starts from a
//! fresh hasher that has absorbed the four-byte little-endian encoding of the
//! role's index, so that no two roles ever hash the same message.

use sha2::Digest;
use sha2::Sha512;
use vstd::prelude::*;

verus! {

/// A running SHA-512 computation.
///
/// The state is a `sha2::Sha512`. The verifier knows it only by the bytes it
/// has absorbed, [`absorbed`].
#[verifier::external_body]
pub struct Hasher {
    pub(crate) inner: Sha512,
}

/// The bytes that a hasher has absorbed since it was created, in order.
pub uninterp spec fn absorbed(hasher: Hasher) -> Seq<u8>;

/// The SHA-512 digest of a message.
pub uninterp spec fn sha512(message: Seq<u8>) -> Seq<u8>;

/// `Default::default` for `Sha512` gives the initial state, which has
/// absorbed nothing.
#[verifier::external_body]
fn hasher_new() -> (hasher: Hasher)
    ensures
        absorbed(hasher) == Seq::<u8>::empty(),
{
    Hasher { inner: Sha512::default() }
}

/// `Digest::update` appends `data` to the message being hashed.
#[verifier::external_body]
fn hasher_update(hasher: &mut Hasher, data: &[u8])
    ensures
        absorbed(*final(hasher)) == absorbed(*old(hasher)) + data@,
{
    hasher.inner.update(data)
}

/// `Digest::finalize` returns the digest of everything absorbed. For
/// SHA-512 it is 64 bytes long.
#[verifier::external_body]
fn hasher_finalize(hasher: Hasher) -> (digest: [u8; 64])
    ensures
        digest@ == sha512(absorbed(hasher)),
{
    hasher.inner.finalize().into()
}

impl Hasher {
    /// The message absorbed so far.
    pub open spec fn view(&self) -> Seq<u8> {
        absorbed(*self)
    }

    /// A hasher that has absorbed nothing.
    pub fn new() -> (hasher: Self)
        ensures
            hasher@ == Seq::<u8>::empty(),
    {
        hasher_new()
    }

    /// Appends `data` to the message.
    pub fn update(&mut self, data: &[u8])
        ensures
            final(self)@ == old(self)@ + data@,
    {
        hasher_update(self, data)
    }

    /// Ends the computation and returns the digest of the message.
    pub fn finalize(self) -> (digest: [u8; 64])
        ensures
            digest@ == sha512(self@),
    {
        hasher_finalize(self)
    }
}

/// The four-byte little-endian encoding of `n`.
pub open spec fn le_bytes_u32(n: u32) -> Seq<u8> {
    seq![
        (n % 256) as u8,
        (n / 256 % 256) as u8,
        (n / 65536 % 256) as u8,
        (n / 16777216) as u8,
    ]
}

/// The prefix that separates the hash role `index` from the others.
pub open spec fn domain_tag(index: u32) -> Seq<u8> {
    le_bytes_u32(index)
}

/// A fresh hasher for role `N`: it has absorbed the role's tag and nothing
/// else.
#[allow(non_snake_case)]
fn H<const N: u32>() -> (hasher: Hasher)
    ensures
        hasher@ == domain_tag(N),
{
    let mut hasher = Hasher::new();
    let tag: [u8; 4] = [
        (N % 256) as u8,
        (N / 256 % 256) as u8,
        (N / 65536 % 256) as u8,
        (N / 16777216) as u8,
    ];
    hasher.update(tag.as_slice());
    assert(tag@ =~= domain_tag(N));
    assert(Seq::<u8>::empty() + tag@ =~= tag@);
    hasher
}

/// Hasher for deriving a session identifier from nonces.
#[allow(non_snake_case)]
pub fn H0() -> (hasher: Hasher)
    ensures
        hasher@ == domain_tag(0),
{
    H::<0>()
}

/// Hasher for deriving the password-bound generator.
#[allow(non_snake_case)]
pub fn H1() -> (hasher: Hasher)
    ensures
        hasher@ == domain_tag(1),
{
    H::<1>()
}

/// Hasher for deriving the first session key.
#[allow(non_snake_case)]
pub fn H2() -> (hasher: Hasher)
    ensures
        hasher@ == domain_tag(2),
{
    H::<2>()
}

/// Hasher for the authenticator that the server sends.
#[allow(non_snake_case)]
pub fn H3() -> (hasher: Hasher)
    ensures
        hasher@ == domain_tag(3),
{
    H::<3>()
}

/// Hasher for the authenticator that the client sends.
#[allow(non_snake_case)]
pub fn H4() -> (hasher: Hasher)
    ensures
        hasher@ == domain_tag(4),
{
    H::<4>()
}

/// Hasher for deriving the final session key.
#[allow(non_snake_case)]
pub fn H5() -> (hasher: Hasher)
    ensures
        hasher@ == domain_tag(5),
{
    H::<5>()
}

} // verus!
