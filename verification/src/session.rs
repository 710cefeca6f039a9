//! What the two sides of the exchange have in common.

use crate::convert::to_vec;
use crate::error::Error;
use crate::group::{basepoint_encoding, ristretto_mul};
use crate::hash::{domain_tag, sha512, H0};
use crate::utils::{
    authenticator_ta, authenticator_tb, first_session_key, password_generator, session_key,
    session_key_of,
};
use crate::wrappers::SecretKey;
use vstd::prelude::*;

verus! {

/// The least number of bytes that a pre-established session identifier
/// must have.
pub const MIN_SSID_LEN: usize = 16;

/// The session identifier that pre-established material determines.
pub open spec fn ssid_of_material(material: Seq<u8>) -> Seq<u8> {
    sha512(domain_tag(0) + material)
}

/// The password-related string: the encoding of one side's public element
/// of the augmentation layer raised to the other side's private exponent.
///
/// The server raises the stored verifier to its ephemeral private key; the
/// client raises the server's ephemeral public key to the scalar that the
/// password hashes to.
pub open spec fn password_related_string(element: Seq<u8>, exponent: nat) -> Seq<u8> {
    ristretto_mul(element, exponent)
}

/// Adopts a session identifier that was agreed beforehand.
///
/// Material of fewer than [`MIN_SSID_LEN`] bytes is refused. Otherwise the
/// session identifier is the digest of the material.
pub fn establish_ssid(material: &[u8]) -> (ssid: Result<[u8; 64], Error>)
    ensures
        material@.len() < MIN_SSID_LEN ==> ssid is Err && ssid->Err_0
            == Error::InsufficientSsidLength,
        material@.len() >= MIN_SSID_LEN ==> ssid is Ok && ssid->Ok_0@ == ssid_of_material(
            material@,
        ),
{
    // if the material isn't long enough return an error
    if material.len() < MIN_SSID_LEN {
        return Err(Error::InsufficientSsidLength);
    }
    let mut hasher = H0();
    hasher.update(material);
    Ok(hasher.finalize())
}

/// Decides a session on the other side's authenticator.
///
/// If `presented` is the expected authenticator, the session key is derived
/// from the session identifier and the first session key. If not,
/// authentication has failed and no key is given out. The two
/// authenticators are compared in full before the outcome is decided.
pub fn confirm(ssid: [u8; 64], sk1: &SecretKey, expected: &SecretKey, presented: [u8; 64]) -> (key:
    Result<SecretKey, Error>)
    ensures
        presented@ != expected@ ==> key is Err && key->Err_0 == Error::AuthenticationFailed,
        presented@ == expected@ ==> key is Ok && key->Ok_0@ == session_key(ssid@, sk1@),
{
    let presented = SecretKey::new(to_vec(&presented));
    if expected.ct_eq(&presented) {
        let sk = session_key_of(ssid.as_slice(), sk1.expose());
        Ok(SecretKey::new(to_vec(&sk)))
    } else {
        Err(Error::AuthenticationFailed)
    }
}

/// Whether raising `element` to `a` and then to `b` gives the same element
/// as raising it to `b` and then to `a`.
pub open spec fn exponents_commute(element: Seq<u8>, a: nat, b: nat) -> bool {
    ristretto_mul(ristretto_mul(element, a), b) == ristretto_mul(ristretto_mul(element, b), a)
}

/// What one side of a session ends up with.
pub struct Outcome {
    /// The password-related string.
    pub prs: Seq<u8>,
    /// The public key of the CPace substep that the side sends.
    pub public: Seq<u8>,
    /// The first session key.
    pub sk1: Seq<u8>,
    /// The authenticator that the server sends.
    pub ta: Seq<u8>,
    /// The authenticator that the client sends.
    pub tb: Seq<u8>,
    /// The session key.
    pub sk: Seq<u8>,
}

/// What a side ends up with that holds the password-related string `prs`
/// and the private key `own` and receives the public key `other`.
pub open spec fn outcome(ssid: Seq<u8>, prs: Seq<u8>, ci: Seq<u8>, own: nat, other: Seq<u8>) -> Outcome {
    let sk1 = first_session_key(ssid, own, other);
    Outcome {
        prs,
        public: ristretto_mul(password_generator(ssid, prs, ci), own),
        sk1,
        ta: authenticator_ta(ssid, sk1),
        tb: authenticator_tb(ssid, sk1),
        sk: session_key(ssid, sk1),
    }
}

/// What the server ends up with in a session with an honest client.
///
/// `w` is the scalar that the password hashes to, `x` the server's
/// ephemeral private key of the augmentation layer, `ya` and `yb` the
/// server's and the client's private keys of the CPace substep.
pub open spec fn server_outcome(ssid: Seq<u8>, ci: Seq<u8>, w: nat, x: nat, ya: nat, yb: nat) -> Outcome {
    let verifier = ristretto_mul(basepoint_encoding(), w);
    let prs = password_related_string(verifier, x);
    outcome(ssid, prs, ci, ya, client_outcome(ssid, ci, w, x, ya, yb).public)
}

/// What the client ends up with in a session with an honest server.
pub open spec fn client_outcome(ssid: Seq<u8>, ci: Seq<u8>, w: nat, x: nat, ya: nat, yb: nat) -> Outcome {
    let x_pub = ristretto_mul(basepoint_encoding(), x);
    let prs = password_related_string(x_pub, w);
    let server_prs = password_related_string(ristretto_mul(basepoint_encoding(), w), x);
    let server_public = ristretto_mul(password_generator(ssid, server_prs, ci), ya);
    outcome(ssid, prs, ci, yb, server_public)
}

/// Where exponents commute on the base point and on the password-bound
/// generator, an honest client and an honest server hold the same
/// password-related string, expect each other's authenticator, and derive
/// the same session key.
pub proof fn lemma_keys_agree_where_exponents_commute(
    ssid: Seq<u8>,
    ci: Seq<u8>,
    w: nat,
    x: nat,
    ya: nat,
    yb: nat,
)
    requires
        exponents_commute(basepoint_encoding(), w, x),
        exponents_commute(
            password_generator(
                ssid,
                password_related_string(ristretto_mul(basepoint_encoding(), w), x),
                ci,
            ),
            ya,
            yb,
        ),
    ensures
        server_outcome(ssid, ci, w, x, ya, yb).prs == client_outcome(ssid, ci, w, x, ya, yb).prs,
        server_outcome(ssid, ci, w, x, ya, yb).ta == client_outcome(ssid, ci, w, x, ya, yb).ta,
        server_outcome(ssid, ci, w, x, ya, yb).tb == client_outcome(ssid, ci, w, x, ya, yb).tb,
        server_outcome(ssid, ci, w, x, ya, yb).sk == client_outcome(ssid, ci, w, x, ya, yb).sk,
{
}

} // verus!
