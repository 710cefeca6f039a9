//! The client's side of the exchange.
//!
//! A session is a chain of states. Each step consumes the state it is asked
//! of and returns the next one, so that no state can be used twice. A step
//! that fails returns an error and nothing else: the session is over.
//!
//! The client draws no randomness and hashes no password by itself. Fresh
//! bytes are passed in as drawn, or as `None` if the generator failed; the
//! password hash is passed in as computed, or as `None` if the hashing
//! function failed.

use crate::convert::{to_array, to_vec};
use crate::error::Error;
use crate::group::{
    group_order, le_nat, ristretto_from_uniform_bytes, ristretto_mul, scalar_inverse,
    RistrettoPoint, Scalar,
};
use crate::hash::{sha512, Hasher};
use crate::messages::ClientMessage;
use crate::session::{
    confirm, establish_ssid, password_related_string, ssid_of_material, MIN_SSID_LEN,
};
use crate::utils::{
    authenticator_ta, authenticator_tb, compute_authenticator_messages,
    compute_first_session_key, compute_ssid, first_session_key, generate_keypair,
    generate_nonce, password_generator, private_key_of, random_scalar, scalar_from_hash,
    scalar_of_password_hash, session_key, ssid_of_nonces, PasswordHash,
};
use crate::wrappers::{SecretBytes, SecretKey};
use vstd::prelude::*;

verus! {

/// The client before a session has begun.
pub struct Client {}

/// The client has sent its nonce and waits for the server's.
pub struct ClientAwaitingNonce {
    nonce: [u8; 16],
}

/// The session identifier is agreed.
pub struct ClientSsidEstablished {
    ssid: [u8; 64],
}

/// The augmentation data has been received; the password-related string is
/// known.
pub struct ClientAugmented {
    ssid: [u8; 64],
    prs: SecretBytes,
}

/// The client's public key has been sent; the server's is awaited.
pub struct ClientCPaceSubstep {
    ssid: [u8; 64],
    priv_key: SecretBytes,
}

/// The client's authenticator has been sent; the server's is awaited.
pub struct ClientConfirmation {
    ssid: [u8; 64],
    sk1: SecretKey,
    expected: SecretKey,
}

/// The session is established. Only the session key is left.
pub struct ClientSessionEstablished {
    sk: SecretKey,
}

/// The output of the password hash as a sequence of bytes, if there is one.
pub open spec fn hash_output(pw_hash: PasswordHash) -> Option<Seq<u8>> {
    match pw_hash.hash {
        Some(bytes) => Some(bytes@),
        None => None,
    }
}

/// What the client makes of the server's augmentation data: the
/// password-related string, or the reason why there is none.
///
/// `x_pub` is the encoding of the server's ephemeral public key, and
/// `pw_hash` the output of the password hash, if the hashing succeeded and
/// gave one.
pub open spec fn client_prs(x_pub: RistrettoPoint, pw_hash: Option<PasswordHash>) -> Result<
    Seq<u8>,
    Error,
> {
    if x_pub.is_identity() {
        Err(Error::IllegalPoint)
    } else {
        match pw_hash {
            None => Err(Error::PasswordHashing),
            Some(hash) => match scalar_of_password_hash(hash_output(hash)) {
                Ok(w) => Ok(password_related_string(x_pub@, w)),
                Err(e) => Err(e),
            },
        }
    }
}

/// The client has sent a blinded element to obtain its salt obliviously, and
/// waits for the blinded salt.
pub struct ClientBlinded {
    ssid: [u8; 64],
    blinding: SecretBytes,
}

/// The group element that a password is hashed to.
pub open spec fn password_element(password: Seq<u8>) -> Seq<u8> {
    ristretto_from_uniform_bytes(sha512(password))
}

/// The salt that a blinded salt gives once the blinding scalar `r` is taken
/// off: the digest of the encoding of the unblinded element.
pub open spec fn oblivious_salt(blinded_salt: Seq<u8>, r: nat) -> Seq<u8> {
    sha512(ristretto_mul(blinded_salt, scalar_inverse(r)))
}

impl Client {
    /// A client that can begin sessions.
    pub fn new() -> (client: Self) {
        Client {  }
    }

    /// Begins a session whose identifier is agreed by exchanging nonces.
    ///
    /// `drawn` is the client's nonce as drawn, or `None` if the generator
    /// failed. The nonce is to be sent to the server.
    pub fn begin_fresh_ssid(&self, drawn: Option<[u8; 16]>) -> (step: Result<
        (ClientAwaitingNonce, ClientMessage),
        Error,
    >)
        ensures
            drawn is None ==> step is Err && step->Err_0 == Error::Rng,
            drawn matches Some(t) ==> step is Ok && step->Ok_0.0.nonce() == t@ && step->Ok_0.1
                == ClientMessage::Nonce(t),
    {
        match generate_nonce(drawn) {
            Ok(nonce) => Ok((ClientAwaitingNonce { nonce }, ClientMessage::Nonce(nonce))),
            Err(e) => Err(e),
        }
    }

    /// Begins a session whose identifier was agreed beforehand.
    ///
    /// Material of fewer than [`MIN_SSID_LEN`] bytes is refused. Otherwise
    /// the session identifier is the digest of the material.
    pub fn begin_prestablished_ssid(&self, ssid: &[u8]) -> (step: Result<
        ClientSsidEstablished,
        Error,
    >)
        ensures
            ssid@.len() < MIN_SSID_LEN ==> step is Err && step->Err_0
                == Error::InsufficientSsidLength,
            ssid@.len() >= MIN_SSID_LEN ==> step is Ok && step->Ok_0.ssid() == ssid_of_material(
                ssid@,
            ),
    {
        match establish_ssid(ssid) {
            Ok(ssid) => Ok(ClientSsidEstablished { ssid }),
            Err(e) => Err(e),
        }
    }
}

impl ClientAwaitingNonce {
    /// The nonce that the client sent.
    pub closed spec fn nonce(&self) -> Seq<u8> {
        self.nonce@
    }

    /// Takes the server's nonce and fixes the session identifier.
    pub fn receive_server_nonce(self, server_nonce: [u8; 16]) -> (next: ClientSsidEstablished)
        ensures
            next.ssid() == ssid_of_nonces(server_nonce@, self.nonce()),
    {
        ClientSsidEstablished { ssid: compute_ssid(server_nonce, self.nonce) }
    }
}

impl ClientSsidEstablished {
    /// The session identifier.
    pub closed spec fn ssid(&self) -> Seq<u8> {
        self.ssid@
    }

    /// Takes the server's ephemeral public key and the hash of the password
    /// under the salt and the parameters that came with it, and derives the
    /// password-related string.
    ///
    /// The password is to be hashed in full whatever the server sent: a
    /// client cannot tell a decoy from a record, and must not try to.
    /// `pw_hash` is `None` if the hashing function failed. The identity
    /// element is refused as a public key.
    pub fn receive_augmentation_info(
        self,
        x_pub: RistrettoPoint,
        pw_hash: Option<PasswordHash>,
    ) -> (step: Result<ClientAugmented, Error>)
        ensures
            match client_prs(x_pub, pw_hash) {
                Ok(prs) => step is Ok && step->Ok_0.ssid() == self.ssid() && step->Ok_0.prs()
                    == prs,
                Err(e) => step is Err && step->Err_0 == e,
            },
    {
        if x_pub.is_identity() {
            return Err(Error::IllegalPoint);
        }
        let hash = match pw_hash {
            Some(hash) => hash,
            None => {
                return Err(Error::PasswordHashing);
            },
        };
        let w = match scalar_from_hash(&hash) {
            Ok(w) => w,
            Err(e) => {
                return Err(e);
            },
        };
        let cofactor = Scalar::one();
        let exponent = w.mul(&cofactor);
        let shared = x_pub.mul(&exponent);
        let prs = SecretBytes::new(to_vec(&shared.to_bytes()));
        Ok(ClientAugmented { ssid: self.ssid, prs })
    }
}

impl ClientSsidEstablished {
    /// Blinds the password for a server that hands out salts obliviously.
    ///
    /// The password is hashed to a group element, which is raised to a
    /// blinding scalar derived from the 64 drawn bytes. The blinded element
    /// is to be sent to the server. Drawn bytes that give the scalar zero
    /// are no better than none.
    pub fn blind_password(self, password: &[u8], drawn: Option<[u8; 64]>) -> (step: Result<
        (ClientBlinded, RistrettoPoint),
        Error,
    >)
        ensures
            drawn is None ==> step is Err && step->Err_0 == Error::Rng,
            drawn matches Some(bytes) ==> {
                let r = private_key_of(bytes@);
                if r == 0 {
                    step is Err && step->Err_0 == Error::Rng
                } else {
                    &&& step matches Ok((next, blinded))
                    &&& next.ssid() == self.ssid()
                    &&& next.blinding() == r
                    &&& blinded@ == ristretto_mul(password_element(password@), r)
                }
            },
    {
        let r = match random_scalar(drawn) {
            Ok(r) => r,
            Err(e) => {
                return Err(e);
            },
        };
        if r.is_zero() {
            return Err(Error::Rng);
        }
        let mut hasher = Hasher::new();
        hasher.update(password);
        assert(Seq::<u8>::empty() + password@ =~= password@);
        let element = RistrettoPoint::from_hash(hasher);
        let cofactor = Scalar::one();
        let blinded = element.mul(&r.mul(&cofactor));
        let blinding = SecretBytes::new(to_vec(&r.to_bytes()));
        Ok((ClientBlinded { ssid: self.ssid, blinding }, blinded))
    }
}

impl ClientBlinded {
    #[verifier::type_invariant]
    spec fn well_formed(self) -> bool {
        self.blinding@.len() == 32 && 0 < le_nat(self.blinding@) < group_order()
    }

    /// The session identifier.
    pub closed spec fn ssid(&self) -> Seq<u8> {
        self.ssid@
    }

    /// The blinding scalar.
    pub closed spec fn blinding(&self) -> nat {
        le_nat(self.blinding@)
    }

    /// Takes the blinded salt, takes the blinding off and derives the salt
    /// under which the password is to be hashed.
    ///
    /// The session goes on as it does for a salt that came in the clear.
    /// The identity is refused as a blinded salt.
    pub fn unblind(self, blinded_salt: RistrettoPoint) -> (step: Result<
        (ClientSsidEstablished, [u8; 64]),
        Error,
    >)
        ensures
            blinded_salt.is_identity() ==> step is Err && step->Err_0 == Error::IllegalPoint,
            !blinded_salt.is_identity() ==> {
                &&& step matches Ok((next, salt))
                &&& next.ssid() == self.ssid()
                &&& salt@ == oblivious_salt(blinded_salt@, self.blinding())
            },
    {
        proof {
            use_type_invariant(&self);
        }
        if blinded_salt.is_identity() {
            return Err(Error::IllegalPoint);
        }
        let bytes: [u8; 32] = to_array(self.blinding.expose());
        assert(bytes@ =~= self.blinding@);
        let r = Scalar::from_bytes_mod_order(bytes);
        let inverse = match r.invert() {
            Some(inverse) => inverse,
            None => vstd::pervasive::unreached(),
        };
        let cofactor = Scalar::one();
        let salt_point = blinded_salt.mul(&inverse.mul(&cofactor));
        let mut hasher = Hasher::new();
        hasher.update(salt_point.to_bytes().as_slice());
        assert(Seq::<u8>::empty() + salt_point@ =~= salt_point@);
        let salt = hasher.finalize();
        Ok((ClientSsidEstablished { ssid: self.ssid }, salt))
    }
}

impl ClientAugmented {
    #[verifier::type_invariant]
    spec fn well_formed(self) -> bool {
        self.prs@.len() == 32
    }

    /// The session identifier.
    pub closed spec fn ssid(&self) -> Seq<u8> {
        self.ssid@
    }

    /// The password-related string.
    pub closed spec fn prs(&self) -> Seq<u8> {
        self.prs@
    }

    /// Generates the client's key pair for the CPace substep.
    ///
    /// The generator is bound to the session identifier, the
    /// password-related string and the channel identifier `ci`. The private
    /// key is derived from the 64 drawn bytes; the public key is to be sent
    /// to the server.
    pub fn generate_public_key(self, ci: &[u8], drawn: Option<[u8; 64]>) -> (step: Result<
        (ClientCPaceSubstep, ClientMessage),
        Error,
    >)
        ensures
            drawn is None ==> step is Err && step->Err_0 == Error::Rng,
            drawn matches Some(bytes) ==> {
                &&& step matches Ok((next, message))
                &&& next.ssid() == self.ssid()
                &&& next.priv_key() == private_key_of(bytes@)
                &&& message matches ClientMessage::PublicKey(public)
                &&& public@ == ristretto_mul(
                    password_generator(self.ssid(), self.prs(), ci@),
                    private_key_of(bytes@),
                )
            },
    {
        proof {
            use_type_invariant(&self);
        }
        let prs: [u8; 32] = to_array(self.prs.expose());
        assert(prs@ =~= self.prs@);
        match generate_keypair(drawn, self.ssid, prs, ci) {
            Ok((private, public)) => {
                let priv_key = SecretBytes::new(to_vec(&private.to_bytes()));
                Ok((
                    ClientCPaceSubstep { ssid: self.ssid, priv_key },
                    ClientMessage::PublicKey(public),
                ))
            },
            Err(e) => Err(e),
        }
    }
}

impl ClientCPaceSubstep {
    #[verifier::type_invariant]
    spec fn well_formed(self) -> bool {
        self.priv_key@.len() == 32
    }

    /// The session identifier.
    pub closed spec fn ssid(&self) -> Seq<u8> {
        self.ssid@
    }

    /// The client's private key for the CPace substep.
    pub closed spec fn priv_key(&self) -> nat {
        le_nat(self.priv_key@) % group_order()
    }

    /// Takes the server's public key, derives the first session key and
    /// the authenticators, and hands out the client's authenticator.
    ///
    /// The identity element is refused.
    pub fn receive_server_pub(self, server_pub: RistrettoPoint) -> (step: Result<
        (ClientConfirmation, ClientMessage),
        Error,
    >)
        ensures
            server_pub.is_identity() ==> step is Err && step->Err_0 == Error::IllegalPoint,
            !server_pub.is_identity() ==> {
                let sk1 = first_session_key(self.ssid(), self.priv_key(), server_pub@);
                &&& step matches Ok((next, message))
                &&& next.ssid() == self.ssid()
                &&& next.sk1() == sk1
                &&& next.expected() == authenticator_ta(self.ssid(), sk1)
                &&& message matches ClientMessage::Authenticator(tb)
                &&& tb@ == authenticator_tb(self.ssid(), sk1)
            },
    {
        proof {
            use_type_invariant(&self);
        }
        if server_pub.is_identity() {
            return Err(Error::IllegalPoint);
        }
        let bytes: [u8; 32] = to_array(self.priv_key.expose());
        assert(bytes@ =~= self.priv_key@);
        let priv_key = Scalar::from_bytes_mod_order(bytes);
        let sk1 = compute_first_session_key(self.ssid, priv_key, server_pub);
        let (ta, tb) = compute_authenticator_messages(self.ssid, sk1);
        let next = ClientConfirmation {
            ssid: self.ssid,
            sk1: SecretKey::new(to_vec(&sk1)),
            expected: SecretKey::new(to_vec(&ta)),
        };
        Ok((next, ClientMessage::Authenticator(tb)))
    }
}

impl ClientConfirmation {
    /// The session identifier.
    pub closed spec fn ssid(&self) -> Seq<u8> {
        self.ssid@
    }

    /// The first session key.
    pub closed spec fn sk1(&self) -> Seq<u8> {
        self.sk1@
    }

    /// The authenticator that the server has to present.
    pub closed spec fn expected(&self) -> Seq<u8> {
        self.expected@
    }

    /// Takes the server's authenticator. If it is the expected one, the
    /// session key is derived; if not, authentication has failed and no key
    /// is given out.
    pub fn receive_server_authenticator(self, server_authenticator: [u8; 64]) -> (step: Result<
        ClientSessionEstablished,
        Error,
    >)
        ensures
            server_authenticator@ != self.expected() ==> step is Err && step->Err_0
                == Error::AuthenticationFailed,
            server_authenticator@ == self.expected() ==> step is Ok && step->Ok_0.session_key()
                == session_key(self.ssid(), self.sk1()),
    {
        match confirm(self.ssid, &self.sk1, &self.expected, server_authenticator) {
            Ok(sk) => Ok(ClientSessionEstablished { sk }),
            Err(e) => Err(e),
        }
    }
}

impl ClientSessionEstablished {
    /// The session key.
    pub closed spec fn session_key(&self) -> Seq<u8> {
        self.sk@
    }

    /// Gives out the session key.
    pub fn into_session_key(self) -> (key: SecretKey)
        ensures
            key@ == self.session_key(),
    {
        self.sk
    }
}

} // verus!
