//! Zeroizing wrappers for byte-oriented secrets.
//!
//! - [`SecretBytes`]: password bytes and other sensitive buffers supplied by
//!   users.
//! - [`SecretKey`]: derived session keys and other key material, with an
//!   equality test that never leaves its scan early.
//!
//! Both wipe their buffer when they are dropped.

use crate::render::{decimal, decimal_string};
use vstd::prelude::*;
use vstd::std_specs::convert::FromSpecImpl;
use vstd::string::StringExecFns;
use zeroize::Zeroize;
use zeroize::Zeroizing;

verus! {

/// A heap buffer that wipes itself when it is dropped.
///
/// The buffer is a `zeroize::Zeroizing<Vec<u8>>`. Its contents are known to
/// the verifier only through [`held_bytes`].
#[verifier::external_body]
pub struct ZeroizingBuffer {
    inner: Zeroizing<Vec<u8>>,
}

/// The bytes that a zeroizing buffer currently holds, in order.
pub uninterp spec fn held_bytes(buffer: ZeroizingBuffer) -> Seq<u8>;

/// `Zeroizing::new` moves the vector into the guard without touching it.
#[verifier::external_body]
fn buffer_new(bytes: Vec<u8>) -> (buffer: ZeroizingBuffer)
    ensures
        held_bytes(buffer) == bytes@,
{
    ZeroizingBuffer { inner: Zeroizing::new(bytes) }
}

/// `Deref` on `Zeroizing` hands out the vector it guards; the slice borrows
/// every byte of it.
#[verifier::external_body]
fn buffer_as_slice(buffer: &ZeroizingBuffer) -> (bytes: &[u8])
    ensures
        bytes@ == held_bytes(*buffer),
{
    buffer.inner.as_slice()
}

/// `core::mem::take` through `DerefMut` on `Zeroizing`: the guarded vector is
/// moved out and an empty one is left in its place.
#[verifier::external_body]
fn buffer_take(buffer: &mut ZeroizingBuffer) -> (bytes: Vec<u8>)
    ensures
        bytes@ == held_bytes(*old(buffer)),
        held_bytes(*final(buffer)) == Seq::<u8>::empty(),
{
    core::mem::take(&mut *buffer.inner)
}

/// `Zeroize::zeroize` on `Zeroizing<Vec<u8>>` overwrites every byte of the
/// allocation with zero and then clears the vector, so no byte is held
/// afterwards.
#[verifier::external_body]
fn buffer_zeroize(buffer: &mut ZeroizingBuffer)
    ensures
        held_bytes(*final(buffer)) == Seq::<u8>::empty(),
{
    buffer.inner.zeroize()
}

/// What a diagnostic rendering shows of a secret of `len` bytes held by a
/// wrapper called `name`: the name and the length, never the bytes.
pub open spec fn redacted(name: Seq<char>, len: nat) -> Seq<char> {
    name + "([redacted], len="@ + decimal(len) + ")"@
}

fn render_redacted(name: &str, len: usize) -> (text: String)
    ensures
        text@ == redacted(name@, len as nat),
{
    let mut text = String::from_str(name);
    text.append("([redacted], len=");
    let digits = decimal_string(len);
    text.append(digits.as_str());
    text.append(")");
    text
}

/// Zeroizing wrapper for secret byte buffers such as passwords.
pub struct SecretBytes {
    buffer: ZeroizingBuffer,
}

impl SecretBytes {
    /// The secret bytes, in order.
    pub closed spec fn view(&self) -> Seq<u8> {
        held_bytes(self.buffer)
    }

    /// Wraps an owned byte vector.
    pub fn new(bytes: Vec<u8>) -> (secret: Self)
        ensures
            secret@ == bytes@,
    {
        SecretBytes { buffer: buffer_new(bytes) }
    }

    /// Borrows the secret bytes without copying them.
    pub fn expose(&self) -> (bytes: &[u8])
        ensures
            bytes@ == self@,
    {
        buffer_as_slice(&self.buffer)
    }

    /// Hands the secret bytes over to the caller, who becomes responsible
    /// for them.
    pub fn into_inner(self) -> (bytes: Vec<u8>)
        ensures
            bytes@ == self@,
    {
        let mut this = self;
        buffer_take(&mut this.buffer)
    }

    /// Wipes the secret. Nothing is held afterwards.
    pub fn zeroize(&mut self)
        ensures
            final(self)@ == Seq::<u8>::empty(),
    {
        buffer_zeroize(&mut self.buffer)
    }

    /// Diagnostic rendering: the type's name and the length of the secret.
    pub fn debug_string(&self) -> (text: String)
        ensures
            text@ == redacted("SecretBytes"@, self@.len()),
    {
        render_redacted("SecretBytes", self.expose().len())
    }
}

impl core::ops::Deref for SecretBytes {
    type Target = [u8];

    fn deref(&self) -> (bytes: &[u8])
        ensures
            bytes@ == self@,
    {
        self.expose()
    }
}

impl AsRef<[u8]> for SecretBytes {
    fn as_ref(&self) -> (bytes: &[u8])
        ensures
            bytes@ == self@,
    {
        self.expose()
    }
}

impl From<Vec<u8>> for SecretBytes {
    fn from(v: Vec<u8>) -> (secret: Self)
        ensures
            secret@ == v@,
    {
        SecretBytes::new(v)
    }
}

/// A wrapper is known only by the bytes it holds, so no value is named
/// here: what `from` returns is stated on `from` itself, over the view.
impl FromSpecImpl<Vec<u8>> for SecretBytes {
    open spec fn obeys_from_spec() -> bool {
        false
    }

    open spec fn from_spec(v: Vec<u8>) -> Self {
        arbitrary()
    }
}

/// Wrapping a vector and taking it out again gives back the same bytes.
pub proof fn lemma_secret_bytes_round_trip(v: Vec<u8>, secret: SecretBytes, out: Vec<u8>)
    requires
        call_ensures(<SecretBytes as From<Vec<u8>>>::from, (v,), secret),
        call_ensures(SecretBytes::into_inner, (secret,), out),
    ensures
        out@ == v@,
{
}

/// Zeroizing wrapper for derived session keys and other key material.
pub struct SecretKey {
    buffer: ZeroizingBuffer,
}

/// The byte at position `i` of `bytes`, or zero past its end.
pub open spec fn byte_or_zero(bytes: Seq<u8>, i: int) -> u8 {
    if 0 <= i < bytes.len() {
        bytes[i]
    } else {
        0
    }
}

/// Folds a length difference into one byte that is zero exactly when the
/// difference is.
fn fold_length_difference(a_len: usize, b_len: usize) -> (folded: u8)
    ensures
        (folded == 0) == (a_len == b_len),
{
    let d: u64 = (a_len ^ b_len) as u64;
    let d: u64 = d | (d >> 32);
    let d: u64 = d | (d >> 16);
    let d: u64 = d | (d >> 8);
    let folded: u8 = (d & 0xff) as u8;
    assert((folded == 0) == (a_len == b_len)) by (bit_vector)
        requires
            folded == ({
                let d0 = (a_len ^ b_len) as u64;
                let d1 = d0 | (d0 >> 32);
                let d2 = d1 | (d1 >> 16);
                let d3 = d2 | (d2 >> 8);
                (d3 & 0xff) as u8
            }),
    ;
    folded
}

impl SecretKey {
    /// The key bytes, in order.
    pub closed spec fn view(&self) -> Seq<u8> {
        held_bytes(self.buffer)
    }

    /// Wraps an owned byte vector.
    pub fn new(bytes: Vec<u8>) -> (key: Self)
        ensures
            key@ == bytes@,
    {
        SecretKey { buffer: buffer_new(bytes) }
    }

    /// Borrows the key bytes without copying them.
    pub fn expose(&self) -> (bytes: &[u8])
        ensures
            bytes@ == self@,
    {
        buffer_as_slice(&self.buffer)
    }

    /// Equality of two keys, decided without leaving the scan early.
    ///
    /// The length difference is folded into the accumulator, and then as many
    /// positions are visited as the longer key has bytes, the shorter key
    /// counting as zero past its end. The accumulator is looked at once,
    /// after the last position.
    pub fn ct_eq(&self, other: &Self) -> (equal: bool)
        ensures
            equal == (self@ == other@),
    {
        let a = self.expose();
        let b = other.expose();
        let max_len: usize = if a.len() > b.len() {
            a.len()
        } else {
            b.len()
        };
        let mut acc: u8 = fold_length_difference(a.len(), b.len());
        let mut i: usize = 0;
        while i < max_len
            invariant
                i <= max_len,
                max_len == if a@.len() > b@.len() {
                    a@.len()
                } else {
                    b@.len()
                },
                (acc == 0) == (a@.len() == b@.len() && forall|j: int|
                    0 <= j < i ==> byte_or_zero(a@, j) == byte_or_zero(b@, j)),
            decreases max_len - i,
        {
            let av: u8 = if i < a.len() {
                a[i]
            } else {
                0
            };
            let bv: u8 = if i < b.len() {
                b[i]
            } else {
                0
            };
            let ghost before = acc;
            acc |= av ^ bv;
            assert((acc == 0) == (before == 0 && av == bv)) by (bit_vector)
                requires
                    acc == before | (av ^ bv),
            ;
            assert(av == byte_or_zero(a@, i as int));
            assert(bv == byte_or_zero(b@, i as int));
            i += 1;
        }
        proof {
            if acc == 0 {
                assert forall|j: int| 0 <= j < a@.len() implies a@[j] == b@[j] by {
                    assert(byte_or_zero(a@, j) == byte_or_zero(b@, j));
                }
                assert(a@ =~= b@);
            } else if a@ == b@ {
                assert(forall|j: int|
                    0 <= j < i ==> byte_or_zero(a@, j) == byte_or_zero(b@, j));
            }
        }
        acc == 0
    }

    /// Hands the key bytes over to the caller, who becomes responsible for
    /// them.
    pub fn into_inner(self) -> (bytes: Vec<u8>)
        ensures
            bytes@ == self@,
    {
        let mut this = self;
        buffer_take(&mut this.buffer)
    }

    /// Wipes the key. Nothing is held afterwards.
    pub fn zeroize(&mut self)
        ensures
            final(self)@ == Seq::<u8>::empty(),
    {
        buffer_zeroize(&mut self.buffer)
    }

    /// Diagnostic rendering: the type's name and the length of the key.
    pub fn debug_string(&self) -> (text: String)
        ensures
            text@ == redacted("SecretKey"@, self@.len()),
    {
        render_redacted("SecretKey", self.expose().len())
    }
}

impl core::ops::Deref for SecretKey {
    type Target = [u8];

    fn deref(&self) -> (bytes: &[u8])
        ensures
            bytes@ == self@,
    {
        self.expose()
    }
}

impl AsRef<[u8]> for SecretKey {
    fn as_ref(&self) -> (bytes: &[u8])
        ensures
            bytes@ == self@,
    {
        self.expose()
    }
}

impl From<Vec<u8>> for SecretKey {
    fn from(v: Vec<u8>) -> (key: Self)
        ensures
            key@ == v@,
    {
        SecretKey::new(v)
    }
}

/// A wrapper is known only by the bytes it holds, so no value is named
/// here: what `from` returns is stated on `from` itself, over the view.
impl FromSpecImpl<Vec<u8>> for SecretKey {
    open spec fn obeys_from_spec() -> bool {
        false
    }

    open spec fn from_spec(v: Vec<u8>) -> Self {
        arbitrary()
    }
}

/// Wrapping a vector as a key and taking it out again gives back the same
/// bytes.
pub proof fn lemma_secret_key_round_trip(v: Vec<u8>, key: SecretKey, out: Vec<u8>)
    requires
        call_ensures(<SecretKey as From<Vec<u8>>>::from, (v,), key),
        call_ensures(SecretKey::into_inner, (key,), out),
    ensures
        out@ == v@,
{
}

/// Whether `a` and `b` agree everywhere but in bit `k` of the byte at
/// position `i`.
pub open spec fn differ_in_bit(a: Seq<u8>, b: Seq<u8>, i: int, k: u8) -> bool {
    &&& a.len() == b.len()
    &&& 0 <= i < a.len()
    &&& k < 8
    &&& a[i] == b[i] ^ (1u8 << k)
    &&& forall|j: int| 0 <= j < a.len() && j != i ==> a[j] == b[j]
}

/// Whether `a` and `b` have the same length and differ in exactly one bit.
pub open spec fn differ_in_one_bit(a: Seq<u8>, b: Seq<u8>) -> bool {
    exists|i: int, k: u8| #[trigger] differ_in_bit(a, b, i, k)
}

/// Keys that hold the same bytes compare equal.
pub proof fn lemma_ct_eq_accepts_equal_bytes(a: SecretKey, b: SecretKey, equal: bool)
    requires
        call_ensures(SecretKey::ct_eq, (&a, &b), equal),
        a@ == b@,
    ensures
        equal,
{
}

/// Keys that differ in a single bit compare unequal, whichever bit it is.
pub proof fn lemma_ct_eq_rejects_single_bit_difference(a: SecretKey, b: SecretKey, equal: bool)
    requires
        call_ensures(SecretKey::ct_eq, (&a, &b), equal),
        differ_in_one_bit(a@, b@),
    ensures
        !equal,
{
    let (i, k) = choose|i: int, k: u8| #[trigger] differ_in_bit(a@, b@, i, k);
    let x = b@[i];
    assert(x ^ (1u8 << k) != x) by (bit_vector)
        requires
            k < 8,
    ;
    assert(a@[i] != b@[i]);
}

} // verus!
