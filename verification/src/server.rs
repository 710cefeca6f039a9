//! The server's side of the exchange.
//!
//! A session is a chain of states. Each step consumes the state it is asked
//! of and returns the next one, so that no state can be used twice. A step
//! that fails returns an error and nothing else: the session is over.
//!
//! The server draws no randomness and looks nothing up by itself. Fresh
//! bytes are passed in as drawn, or as `None` if the generator failed; the
//! user's record is passed in as found.

use crate::convert::{to_array, to_vec};
use crate::error::Error;
use crate::group::{
    basepoint_encoding, identity_encoding, ristretto_mul, RistrettoPoint, Scalar,
};
use crate::messages::{default_params, group_name, group_name_string, ServerMessage};
use crate::session::{
    confirm, establish_ssid, password_related_string, ssid_of_material, MIN_SSID_LEN,
};
use crate::utils::{
    authenticator_ta, authenticator_tb, compute_authenticator_messages,
    compute_first_session_key, compute_ssid, first_session_key, generate_keypair,
    generate_nonce, generate_server_keypair, password_generator, private_key_of, session_key,
    ssid_of_nonces,
};
use crate::wrappers::{SecretBytes, SecretKey};
use vstd::prelude::*;

verus! {

/// Where the server finds the verifiers of its users.
pub trait Database {
    /// The verifier, the salt and the hashing parameters stored for
    /// `username`, if there are any.
    fn lookup_verifier(&self, username: &[u8]) -> Option<(RistrettoPoint, String, String)>;

    /// Stores a verifier with its salt and hashing parameters for
    /// `username`. `uad` is optional data associated with the user.
    fn store_verifier(
        &mut self,
        username: &[u8],
        salt: String,
        uad: Option<&[u8]>,
        verifier: RistrettoPoint,
        params: String,
    );
}

/// What the server answers with for a user it has no record of.
///
/// So that a miss cannot be told from a hit, the decoy must be the same
/// whenever the same user is asked for, and must look like a stored record.
pub struct Decoy {
    /// Stands in for the verifier.
    pub verifier: RistrettoPoint,
    /// Stands in for the salt.
    pub salt: String,
}

/// Where the server finds the verifiers and the secret exponents of its
/// users when salts are handed out obliviously.
pub trait StrongDatabase {
    /// The verifier, the secret exponent and the hashing parameters stored
    /// for `username`, if there are any.
    fn lookup_verifier_strong(&self, username: &[u8]) -> Option<(RistrettoPoint, Scalar, String)>;

    /// Stores a verifier with its secret exponent and hashing parameters
    /// for `username`. `uad` is optional data associated with the user.
    fn store_verifier_strong(
        &mut self,
        username: &[u8],
        uad: Option<&[u8]>,
        verifier: RistrettoPoint,
        secret_exponent: Scalar,
        params: String,
    );
}

/// What the server answers with for a user it has no record of, when salts
/// are handed out obliviously.
///
/// As for [`Decoy`], it must be the same whenever the same user is asked
/// for. The exponent must not be zero.
pub struct StrongDecoy {
    /// Stands in for the verifier.
    pub verifier: RistrettoPoint,
    /// Stands in for the secret exponent.
    pub exponent: Scalar,
}

/// What the server makes of a blinded element `blinded` with the record
/// `(verifier, q)` and the ephemeral private key `x`: the password-related
/// string and the blinded salt, or the reason why there are none.
///
/// A blinded element that is the identity is refused, and so is a blinded
/// salt that would be the identity.
pub open spec fn strong_augmentation(blinded: Seq<u8>, verifier: Seq<u8>, q: nat, x: nat) -> Result<
    (Seq<u8>, Seq<u8>),
    Error,
> {
    if blinded == identity_encoding() || ristretto_mul(blinded, q) == identity_encoding() {
        Err(Error::IllegalPoint)
    } else {
        Ok((password_related_string(verifier, x), ristretto_mul(blinded, q)))
    }
}

/// The server before a session has begun.
pub struct Server {}

/// The server has sent its nonce and waits for the client's.
pub struct ServerAwaitingNonce {
    nonce: [u8; 16],
}

/// The session identifier is agreed.
pub struct ServerSsidEstablished {
    ssid: [u8; 64],
}

/// The augmentation data has been sent; the password-related string is
/// known.
pub struct ServerAugmented {
    ssid: [u8; 64],
    prs: SecretBytes,
}

/// The server's public key has been sent; the client's is awaited.
pub struct ServerCPaceSubstep {
    ssid: [u8; 64],
    priv_key: SecretBytes,
}

/// The server's authenticator has been sent; the client's is awaited.
pub struct ServerConfirmation {
    ssid: [u8; 64],
    sk1: SecretKey,
    expected: SecretKey,
}

/// The session is established. Only the session key is left.
pub struct ServerSessionEstablished {
    sk: SecretKey,
}

impl Server {
    /// A server that can begin sessions.
    pub fn new() -> (server: Self) {
        Server {  }
    }

    /// Begins a session whose identifier is agreed by exchanging nonces.
    ///
    /// `drawn` is the server's nonce as drawn, or `None` if the generator
    /// failed. The nonce is to be sent to the client.
    pub fn begin_fresh_ssid(&self, drawn: Option<[u8; 16]>) -> (step: Result<
        (ServerAwaitingNonce, ServerMessage),
        Error,
    >)
        ensures
            drawn is None ==> step is Err && step->Err_0 == Error::Rng,
            drawn matches Some(s) ==> step is Ok && step->Ok_0.0.nonce() == s@
                && step->Ok_0.1 == ServerMessage::Nonce(s),
    {
        match generate_nonce(drawn) {
            Ok(nonce) => Ok((ServerAwaitingNonce { nonce }, ServerMessage::Nonce(nonce))),
            Err(e) => Err(e),
        }
    }

    /// Begins a session whose identifier was agreed beforehand.
    ///
    /// Material of fewer than [`MIN_SSID_LEN`] bytes is refused. Otherwise
    /// the session identifier is the digest of the material.
    pub fn begin_prestablished_ssid(&self, ssid: &[u8]) -> (step: Result<
        ServerSsidEstablished,
        Error,
    >)
        ensures
            ssid@.len() < MIN_SSID_LEN ==> step is Err && step->Err_0
                == Error::InsufficientSsidLength,
            ssid@.len() >= MIN_SSID_LEN ==> step is Ok && step->Ok_0.ssid() == ssid_of_material(
                ssid@,
            ),
    {
        match establish_ssid(ssid) {
            Ok(ssid) => Ok(ServerSsidEstablished { ssid }),
            Err(e) => Err(e),
        }
    }
}

impl ServerAwaitingNonce {
    /// The nonce that the server sent.
    pub closed spec fn nonce(&self) -> Seq<u8> {
        self.nonce@
    }

    /// Takes the client's nonce and fixes the session identifier.
    pub fn receive_client_nonce(self, client_nonce: [u8; 16]) -> (next: ServerSsidEstablished)
        ensures
            next.ssid() == ssid_of_nonces(self.nonce(), client_nonce@),
    {
        ServerSsidEstablished { ssid: compute_ssid(self.nonce, client_nonce) }
    }
}

impl ServerSsidEstablished {
    /// The session identifier.
    pub closed spec fn ssid(&self) -> Seq<u8> {
        self.ssid@
    }

    /// Looks the user up and prepares the augmentation data for the client.
    ///
    /// Whatever the database answers, the step goes on as
    /// [`Self::client_info`] says for that answer.
    pub fn generate_client_info<DB: Database>(
        self,
        username: &[u8],
        database: &DB,
        decoy: Decoy,
        drawn: Option<[u8; 64]>,
    ) -> (step: Result<(ServerAugmented, ServerMessage), Error>)
        ensures
            drawn is None ==> step is Err && step->Err_0 == Error::Rng,
            drawn is Some ==> step is Ok && step->Ok_0.0.ssid() == self.ssid()
                && step->Ok_0.1 is AugmentationInfo
                && step->Ok_0.1->AugmentationInfo_group@ == group_name()
                && step->Ok_0.1->AugmentationInfo_x_pub@ == ristretto_mul(
                basepoint_encoding(),
                private_key_of(drawn->Some_0@),
            ),
    {
        let lookup = database.lookup_verifier(username);
        self.client_info(lookup, decoy, drawn)
    }

    /// Prepares the augmentation data for the client from what the database
    /// holds for the user.
    ///
    /// An ephemeral key pair is derived from the 64 drawn bytes, and its
    /// public key is sent with the salt and the hashing parameters. For a
    /// user without a record the decoy takes the record's place, with the
    /// default hashing parameters, and everything else is done alike: the
    /// step succeeds, and the message has the same shape.
    pub fn client_info(
        self,
        lookup: Option<(RistrettoPoint, String, String)>,
        decoy: Decoy,
        drawn: Option<[u8; 64]>,
    ) -> (step: Result<(ServerAugmented, ServerMessage), Error>)
        ensures
            drawn is None ==> step is Err && step->Err_0 == Error::Rng,
            drawn matches Some(bytes) ==> {
                let x = private_key_of(bytes@);
                let verifier = match lookup {
                    Some(record) => record.0@,
                    None => decoy.verifier@,
                };
                &&& step matches Ok((next, message))
                &&& next.ssid() == self.ssid()
                &&& next.prs() == password_related_string(verifier, x)
                &&& message matches ServerMessage::AugmentationInfo {
                    group,
                    x_pub,
                    salt,
                    pbkdf_params,
                }
                &&& group@ == group_name()
                &&& x_pub@ == ristretto_mul(basepoint_encoding(), x)
                &&& salt@ == match lookup {
                    Some(record) => record.1@,
                    None => decoy.salt@,
                }
                &&& pbkdf_params@ == match lookup {
                    Some(record) => record.2@,
                    None => default_params(),
                }
            },
    {
        let (x, x_pub) = match generate_server_keypair(drawn) {
            Ok(pair) => pair,
            Err(e) => {
                return Err(e);
            },
        };
        let (verifier, salt, pbkdf_params) = match lookup {
            Some(record) => record,
            None => (decoy.verifier, decoy.salt, String::new()),
        };
        let cofactor = Scalar::one();
        let exponent = x.mul(&cofactor);
        let shared = verifier.mul(&exponent);
        let prs = SecretBytes::new(to_vec(&shared.to_bytes()));
        let message = ServerMessage::AugmentationInfo {
            group: group_name_string(),
            x_pub,
            salt,
            pbkdf_params,
        };
        Ok((ServerAugmented { ssid: self.ssid, prs }, message))
    }
}

impl ServerSsidEstablished {
    /// Looks the user up and prepares the augmentation data for a client
    /// that has sent a blinded element to obtain its salt obliviously.
    ///
    /// Whatever the database answers, the step goes on as
    /// [`Self::client_info_strong`] says for that answer.
    pub fn generate_client_info_strong<DB: StrongDatabase>(
        self,
        username: &[u8],
        blinded: RistrettoPoint,
        database: &DB,
        decoy: StrongDecoy,
        drawn: Option<[u8; 64]>,
    ) -> (step: Result<(ServerAugmented, ServerMessage), Error>)
        ensures
            blinded.is_identity() ==> step is Err && step->Err_0 == Error::IllegalPoint,
            !blinded.is_identity() && drawn is None ==> step is Err && step->Err_0 == Error::Rng,
            step matches Ok((next, message)) ==> {
                &&& drawn is Some
                &&& next.ssid() == self.ssid()
                &&& message matches ServerMessage::StrongAugmentationInfo {
                    group,
                    x_pub,
                    blinded_salt,
                    pbkdf_params,
                }
                &&& group@ == group_name()
                &&& x_pub@ == ristretto_mul(
                    basepoint_encoding(),
                    private_key_of(drawn->Some_0@),
                )
                &&& !blinded_salt.is_identity()
            },
    {
        let lookup = database.lookup_verifier_strong(username);
        self.client_info_strong(blinded, lookup, decoy, drawn)
    }

    /// Prepares the augmentation data for a client that has sent a blinded
    /// element, from what the database holds for the user.
    ///
    /// The blinded element is raised to the user's secret exponent and sent
    /// back as the blinded salt, with an ephemeral public key derived from
    /// the 64 drawn bytes and with the hashing parameters. For a user
    /// without a record the decoy takes the record's place, with the default
    /// hashing parameters, and everything else is done alike.
    ///
    /// The identity is refused as a blinded element, and never sent as a
    /// blinded salt.
    pub fn client_info_strong(
        self,
        blinded: RistrettoPoint,
        lookup: Option<(RistrettoPoint, Scalar, String)>,
        decoy: StrongDecoy,
        drawn: Option<[u8; 64]>,
    ) -> (step: Result<(ServerAugmented, ServerMessage), Error>)
        ensures
            blinded.is_identity() ==> step is Err && step->Err_0 == Error::IllegalPoint,
            !blinded.is_identity() && drawn is None ==> step is Err && step->Err_0 == Error::Rng,
            !blinded.is_identity() && drawn is Some ==> {
                let x = private_key_of(drawn->Some_0@);
                let verifier = match lookup {
                    Some(record) => record.0@,
                    None => decoy.verifier@,
                };
                let q = match lookup {
                    Some(record) => record.1@,
                    None => decoy.exponent@,
                };
                match strong_augmentation(blinded@, verifier, q, x) {
                    Err(e) => step is Err && step->Err_0 == e,
                    Ok((prs, salt_element)) => {
                        &&& step matches Ok((next, message))
                        &&& next.ssid() == self.ssid()
                        &&& next.prs() == prs
                        &&& message matches ServerMessage::StrongAugmentationInfo {
                            group,
                            x_pub,
                            blinded_salt,
                            pbkdf_params,
                        }
                        &&& group@ == group_name()
                        &&& x_pub@ == ristretto_mul(basepoint_encoding(), x)
                        &&& blinded_salt@ == salt_element
                        &&& !blinded_salt.is_identity()
                        &&& pbkdf_params@ == match lookup {
                            Some(record) => record.2@,
                            None => default_params(),
                        }
                    },
                }
            },
    {
        if blinded.is_identity() {
            return Err(Error::IllegalPoint);
        }
        let (x, x_pub) = match generate_server_keypair(drawn) {
            Ok(pair) => pair,
            Err(e) => {
                return Err(e);
            },
        };
        let (verifier, q, pbkdf_params) = match lookup {
            Some(record) => record,
            None => (decoy.verifier, decoy.exponent, String::new()),
        };
        let cofactor = Scalar::one();
        let blinded_salt = blinded.mul(&q.mul(&cofactor));
        if blinded_salt.is_identity() {
            return Err(Error::IllegalPoint);
        }
        let shared = verifier.mul(&x.mul(&cofactor));
        let prs = SecretBytes::new(to_vec(&shared.to_bytes()));
        let message = ServerMessage::StrongAugmentationInfo {
            group: group_name_string(),
            x_pub,
            blinded_salt,
            pbkdf_params,
        };
        Ok((ServerAugmented { ssid: self.ssid, prs }, message))
    }
}

impl ServerAugmented {
    #[verifier::type_invariant]
    spec fn well_formed(self) -> bool {
        self.prs@.len() == 32
    }

    /// The session identifier.
    pub closed spec fn ssid(&self) -> Seq<u8> {
        self.ssid@
    }

    /// The password-related string.
    pub closed spec fn prs(&self) -> Seq<u8> {
        self.prs@
    }

    /// Generates the server's key pair for the CPace substep.
    ///
    /// The generator is bound to the session identifier, the
    /// password-related string and the channel identifier `ci`. The private
    /// key is derived from the 64 drawn bytes; the public key is to be sent
    /// to the client.
    pub fn generate_public_key(self, ci: &[u8], drawn: Option<[u8; 64]>) -> (step: Result<
        (ServerCPaceSubstep, ServerMessage),
        Error,
    >)
        ensures
            drawn is None ==> step is Err && step->Err_0 == Error::Rng,
            drawn matches Some(bytes) ==> {
                &&& step matches Ok((next, message))
                &&& next.ssid() == self.ssid()
                &&& next.priv_key() == private_key_of(bytes@)
                &&& message matches ServerMessage::PublicKey(public)
                &&& public@ == ristretto_mul(
                    password_generator(self.ssid(), self.prs(), ci@),
                    private_key_of(bytes@),
                )
            },
    {
        proof {
            use_type_invariant(&self);
        }
        let prs: [u8; 32] = to_array(self.prs.expose());
        assert(prs@ =~= self.prs@);
        match generate_keypair(drawn, self.ssid, prs, ci) {
            Ok((private, public)) => {
                let priv_key = SecretBytes::new(to_vec(&private.to_bytes()));
                Ok((
                    ServerCPaceSubstep { ssid: self.ssid, priv_key },
                    ServerMessage::PublicKey(public),
                ))
            },
            Err(e) => Err(e),
        }
    }
}

impl ServerCPaceSubstep {
    #[verifier::type_invariant]
    spec fn well_formed(self) -> bool {
        self.priv_key@.len() == 32
    }

    /// The session identifier.
    pub closed spec fn ssid(&self) -> Seq<u8> {
        self.ssid@
    }

    /// The server's private key for the CPace substep.
    pub closed spec fn priv_key(&self) -> nat {
        crate::group::le_nat(self.priv_key@) % crate::group::group_order()
    }

    /// Takes the client's public key, derives the first session key and
    /// the authenticators, and hands out the server's authenticator.
    ///
    /// The identity element is refused.
    pub fn receive_client_pub(self, client_pub: RistrettoPoint) -> (step: Result<
        (ServerConfirmation, ServerMessage),
        Error,
    >)
        ensures
            client_pub.is_identity() ==> step is Err && step->Err_0 == Error::IllegalPoint,
            !client_pub.is_identity() ==> {
                let sk1 = first_session_key(self.ssid(), self.priv_key(), client_pub@);
                &&& step matches Ok((next, message))
                &&& next.ssid() == self.ssid()
                &&& next.sk1() == sk1
                &&& next.expected() == authenticator_tb(self.ssid(), sk1)
                &&& message matches ServerMessage::Authenticator(ta)
                &&& ta@ == authenticator_ta(self.ssid(), sk1)
            },
    {
        proof {
            use_type_invariant(&self);
        }
        if client_pub.is_identity() {
            return Err(Error::IllegalPoint);
        }
        let bytes: [u8; 32] = to_array(self.priv_key.expose());
        assert(bytes@ =~= self.priv_key@);
        let priv_key = Scalar::from_bytes_mod_order(bytes);
        let sk1 = compute_first_session_key(self.ssid, priv_key, client_pub);
        let (ta, tb) = compute_authenticator_messages(self.ssid, sk1);
        let next = ServerConfirmation {
            ssid: self.ssid,
            sk1: SecretKey::new(to_vec(&sk1)),
            expected: SecretKey::new(to_vec(&tb)),
        };
        Ok((next, ServerMessage::Authenticator(ta)))
    }
}

impl ServerConfirmation {
    /// The session identifier.
    pub closed spec fn ssid(&self) -> Seq<u8> {
        self.ssid@
    }

    /// The first session key.
    pub closed spec fn sk1(&self) -> Seq<u8> {
        self.sk1@
    }

    /// The authenticator that the client has to present.
    pub closed spec fn expected(&self) -> Seq<u8> {
        self.expected@
    }

    /// Takes the client's authenticator. If it is the expected one, the
    /// session key is derived; if not, authentication has failed and no key
    /// is given out.
    ///
    /// The two authenticators are compared in full before the outcome is
    /// decided.
    pub fn receive_client_authenticator(self, client_authenticator: [u8; 64]) -> (step: Result<
        ServerSessionEstablished,
        Error,
    >)
        ensures
            client_authenticator@ != self.expected() ==> step is Err && step->Err_0
                == Error::AuthenticationFailed,
            client_authenticator@ == self.expected() ==> step is Ok && step->Ok_0.session_key()
                == session_key(self.ssid(), self.sk1()),
    {
        match confirm(self.ssid, &self.sk1, &self.expected, client_authenticator) {
            Ok(sk) => Ok(ServerSessionEstablished { sk }),
            Err(e) => Err(e),
        }
    }
}

impl ServerSessionEstablished {
    /// The session key.
    pub closed spec fn session_key(&self) -> Seq<u8> {
        self.sk@
    }

    /// Gives out the session key.
    pub fn into_session_key(self) -> (key: SecretKey)
        ensures
            key@ == self.session_key(),
    {
        self.sk
    }
}

} // verus!
