use aucpace::client::Client;
use aucpace::group::{RistrettoPoint, Scalar};
use aucpace::messages::{ClientMessage, ServerMessage};
use aucpace::server::{Server, StrongDatabase, StrongDecoy};
use aucpace::utils::{scalar_from_hash, PasswordHash};
use aucpace::Error;
use curve25519_dalek::ristretto::RistrettoPoint as DalekPoint;
use curve25519_dalek::scalar::Scalar as DalekScalar;
use sha2::{Digest, Sha512};

const SSID: &[u8; 16] = b"0123456789abcdef";
const PARAMS: &str = "m=19456,t=2,p=1";
const CI: &[u8] = b"test-ci";

fn small(n: u8) -> [u8; 32] {
    let mut bytes = [0u8; 32];
    bytes[0] = n;
    bytes
}

fn drawn(seed: u8) -> Option<[u8; 64]> {
    let mut bytes = [0u8; 64];
    for (i, b) in bytes.iter_mut().enumerate() {
        *b = seed.wrapping_add((i as u8).wrapping_mul(29));
    }
    Some(bytes)
}

fn strong_decoy() -> StrongDecoy {
    StrongDecoy {
        verifier: RistrettoPoint::basepoint().mul(&Scalar::from_bytes_mod_order([0x42; 32])),
        exponent: Scalar::from_bytes_mod_order([0x24; 32]),
    }
}

/// Stands in for the password hashing function.
fn hash_password(password: &[u8], salt: &[u8], params: &str) -> PasswordHash {
    let mut hasher = Sha512::new();
    hasher.update(password);
    hasher.update([0u8]);
    hasher.update(salt);
    hasher.update([0u8]);
    hasher.update(params.as_bytes());
    PasswordHash { hash: Some(hasher.finalize().to_vec()) }
}

fn ok<T>(step: Result<T, Error>) -> T {
    match step {
        Ok(value) => value,
        Err(e) => panic!("the step is owed, got {:?}", e),
    }
}

fn error_of<T>(step: Result<T, Error>) -> Error {
    match step {
        Ok(_) => panic!("the step must fail"),
        Err(e) => e,
    }
}

struct NoneStrongDb;

impl StrongDatabase for NoneStrongDb {
    fn lookup_verifier_strong(
        &self,
        _username: &[u8],
    ) -> Option<(RistrettoPoint, Scalar, String)> {
        None
    }

    fn store_verifier_strong(
        &mut self,
        _username: &[u8],
        _uad: Option<&[u8]>,
        _verifier: RistrettoPoint,
        _secret_exponent: Scalar,
        _params: String,
    ) {
        unreachable!()
    }
}

#[test]
fn test_lookup_failed_strong_returns_ok() {
    let server = Server::new();
    let aug_layer = server
        .begin_prestablished_ssid(b"0123456789abcdef")
        .expect("failed to begin prestablished ssid");

    // Strong DB with no entries to force lookup_failed_strong path
    let db = NoneStrongDb;

    // Use a non-identity blinded point to avoid IllegalPointError
    let blinded = RistrettoPoint::basepoint();

    let result = aug_layer.generate_client_info_strong(
        b"nonexistent-user",
        blinded,
        &db,
        strong_decoy(),
        drawn(7),
    );

    assert!(
        result.is_ok(),
        "lookup_failed_strong path should not panic or error"
    );

    let (_next_step, message) = match result {
        Ok(pair) => pair,
        Err(_) => unreachable!(),
    };

    match message {
        ServerMessage::StrongAugmentationInfo {
            group,
            x_pub: _,
            blinded_salt,
            pbkdf_params,
        } => {
            assert_eq!(group, "ristretto255");
            assert_eq!(pbkdf_params, String::new());
            assert!(
                !blinded_salt.is_identity(),
                "fallback blinded_salt must not be identity"
            );
        }
        _ => panic!("Expected StrongAugmentationInfo"),
    }
}

#[test]
fn blinded_salt_is_the_blinded_element_raised_to_the_exponent() {
    let state = ok(Server::new().begin_prestablished_ssid(SSID));
    let q = Scalar::from_bytes_mod_order(small(9));
    let verifier = RistrettoPoint::basepoint().mul(&Scalar::from_bytes_mod_order(small(3)));
    let blinded = RistrettoPoint::basepoint().mul(&Scalar::from_bytes_mod_order(small(5)));
    let (_next, message) = ok(state.client_info_strong(
        blinded,
        Some((verifier, q, String::from(PARAMS))),
        strong_decoy(),
        drawn(1),
    ));
    match message {
        ServerMessage::StrongAugmentationInfo { group, blinded_salt, pbkdf_params, .. } => {
            assert_eq!(group, "ristretto255");
            assert_eq!(pbkdf_params, PARAMS);
            let expected = RistrettoPoint::basepoint().mul(&Scalar::from_bytes_mod_order(small(45)));
            assert_eq!(blinded_salt.to_bytes(), expected.to_bytes());
        }
        _ => panic!("expected the strong augmentation data"),
    }
}

#[test]
fn identity_is_refused_as_a_blinded_element() {
    let identity = RistrettoPoint::from_bytes(&[0u8; 32]).expect("the identity decodes");
    let state = ok(Server::new().begin_prestablished_ssid(SSID));
    assert_eq!(
        error_of(state.client_info_strong(identity, None, strong_decoy(), drawn(1))),
        Error::IllegalPoint
    );
    let state = ok(Server::new().begin_prestablished_ssid(SSID));
    assert_eq!(
        error_of(state.generate_client_info_strong(
            b"user",
            identity,
            &NoneStrongDb,
            strong_decoy(),
            None
        )),
        Error::IllegalPoint
    );
}

#[test]
fn zero_exponent_never_sends_the_identity() {
    let state = ok(Server::new().begin_prestablished_ssid(SSID));
    let zero = Scalar::from_bytes_mod_order([0u8; 32]);
    let outcome = state.client_info_strong(
        RistrettoPoint::basepoint(),
        Some((RistrettoPoint::basepoint(), zero, String::from(PARAMS))),
        strong_decoy(),
        drawn(1),
    );
    assert_eq!(error_of(outcome), Error::IllegalPoint);
}

#[test]
fn strong_step_fails_when_the_generator_fails() {
    let state = ok(Server::new().begin_prestablished_ssid(SSID));
    assert_eq!(
        error_of(state.client_info_strong(RistrettoPoint::basepoint(), None, strong_decoy(), None)),
        Error::Rng
    );
    let client = ok(Client::new().begin_prestablished_ssid(SSID));
    assert_eq!(error_of(client.blind_password(b"pw", None)), Error::Rng);
}

#[test]
fn blinding_raises_the_password_element_to_the_drawn_scalar() {
    let client = ok(Client::new().begin_prestablished_ssid(SSID));
    let bytes = drawn(11);
    let (_state, blinded) = ok(client.blind_password(b"correct horse", bytes));

    let digest: [u8; 64] = Sha512::digest(b"correct horse").into();
    let element = DalekPoint::from_uniform_bytes(&digest);
    let r_digest: [u8; 64] = Sha512::digest(bytes.expect("drawn")).into();
    let r = DalekScalar::from_bytes_mod_order_wide(&r_digest);
    assert_eq!(blinded.to_bytes(), (element * r).compress().to_bytes());
}

#[test]
fn unblinding_gives_the_salt_of_the_exponent_and_the_password() {
    let q = Scalar::from_bytes_mod_order([0x33; 32]);
    let client = ok(Client::new().begin_prestablished_ssid(SSID));
    let (client, blinded) = ok(client.blind_password(b"correct horse", drawn(11)));
    let server = ok(Server::new().begin_prestablished_ssid(SSID));
    let (_server, message) = ok(server.client_info_strong(
        blinded,
        Some((RistrettoPoint::basepoint(), q, String::from(PARAMS))),
        strong_decoy(),
        drawn(12),
    ));
    let blinded_salt = match message {
        ServerMessage::StrongAugmentationInfo { blinded_salt, .. } => blinded_salt,
        _ => panic!("expected the strong augmentation data"),
    };
    let (_client, salt) = ok(client.unblind(blinded_salt));

    let digest: [u8; 64] = Sha512::digest(b"correct horse").into();
    let element = DalekPoint::from_uniform_bytes(&digest);
    let salt_point = element * DalekScalar::from_bytes_mod_order([0x33; 32]);
    let expected: [u8; 64] = Sha512::digest(salt_point.compress().as_bytes()).into();
    assert_eq!(salt, expected);
}

#[test]
fn identity_is_refused_as_a_blinded_salt() {
    let identity = RistrettoPoint::from_bytes(&[0u8; 32]).expect("the identity decodes");
    let client = ok(Client::new().begin_prestablished_ssid(SSID));
    let (client, _blinded) = ok(client.blind_password(b"pw", drawn(11)));
    assert_eq!(error_of(client.unblind(identity)), Error::IllegalPoint);
}

#[test]
fn inverse_times_scalar_is_one() {
    let k = Scalar::from_bytes_mod_order([0x5c; 32]);
    let inverse = k.invert().expect("a scalar that is not zero has an inverse");
    assert_eq!(k.mul(&inverse).to_bytes(), small(1));
    assert_ne!(inverse.to_bytes(), k.to_bytes());
    let two = Scalar::from_bytes_mod_order(small(2));
    let half = two.invert().expect("two has an inverse");
    assert_eq!(
        half.to_bytes(),
        DalekScalar::from(2u8).invert().to_bytes()
    );
    assert!(Scalar::from_bytes_mod_order([0u8; 32]).invert().is_none());
    assert!(Scalar::from_bytes_mod_order([0u8; 32]).is_zero());
    assert!(!two.is_zero());
    let mut high = [0u8; 32];
    high[31] = 1;
    assert!(!Scalar::from_bytes_mod_order(high).is_zero());
}

#[test]
fn strong_exchange_ends_in_the_same_key() {
    let password = b"correct horse";
    let q = Scalar::from_bytes_mod_order([0x33; 32]);

    // Registration: the salt that the server's exponent gives for the password.
    let digest: [u8; 64] = Sha512::digest(password).into();
    let salt_point = DalekPoint::from_uniform_bytes(&digest)
        * DalekScalar::from_bytes_mod_order([0x33; 32]);
    let salt: [u8; 64] = Sha512::digest(salt_point.compress().as_bytes()).into();
    let w = ok(scalar_from_hash(&hash_password(password, &salt, PARAMS)));
    let verifier = RistrettoPoint::basepoint().mul(&w);

    let server = ok(Server::new().begin_prestablished_ssid(SSID));
    let client = ok(Client::new().begin_prestablished_ssid(SSID));

    let (client, blinded) = ok(client.blind_password(password, drawn(21)));
    let (server, message) = ok(server.client_info_strong(
        blinded,
        Some((verifier, q, String::from(PARAMS))),
        strong_decoy(),
        drawn(22),
    ));
    let (x_pub, blinded_salt, params) = match message {
        ServerMessage::StrongAugmentationInfo { x_pub, blinded_salt, pbkdf_params, .. } => {
            (x_pub, blinded_salt, pbkdf_params)
        }
        _ => panic!("expected the strong augmentation data"),
    };
    let (client, derived_salt) = ok(client.unblind(blinded_salt));
    assert_eq!(derived_salt, salt);
    let client = ok(client.receive_augmentation_info(
        x_pub,
        Some(hash_password(password, &derived_salt, &params)),
    ));

    let (server, server_key) = ok(server.generate_public_key(CI, drawn(23)));
    let (client, client_key) = ok(client.generate_public_key(CI, drawn(24)));
    let (server_pub, client_pub) = match (server_key, client_key) {
        (ServerMessage::PublicKey(a), ClientMessage::PublicKey(b)) => (a, b),
        _ => panic!("expected public keys"),
    };
    let (server, ta) = ok(server.receive_client_pub(client_pub));
    let (client, tb) = ok(client.receive_server_pub(server_pub));
    let (ta, tb) = match (ta, tb) {
        (ServerMessage::Authenticator(a), ClientMessage::Authenticator(b)) => (a, b),
        _ => panic!("expected authenticators"),
    };
    let server_key = ok(server.receive_client_authenticator(tb)).into_session_key();
    let client_key = ok(client.receive_server_authenticator(ta)).into_session_key();
    assert_eq!(server_key.expose().len(), 64);
    assert!(server_key.ct_eq(&client_key));
}
