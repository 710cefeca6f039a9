use aucpace::utils::{
    compute_authenticator_messages, compute_first_session_key, compute_session_key, compute_ssid,
    generate_keypair, generate_nonce, generate_server_keypair, scalar_from_hash, PasswordHash,
};
use aucpace::group::{RistrettoPoint, Scalar};
use aucpace::Error;
use curve25519_dalek::constants::RISTRETTO_BASEPOINT_POINT;
use curve25519_dalek::ristretto::{CompressedRistretto, RistrettoPoint as DalekPoint};
use curve25519_dalek::scalar::Scalar as DalekScalar;
use sha2::{Digest, Sha512};

fn digest_of(parts: &[&[u8]]) -> [u8; 64] {
    let mut hasher = Sha512::new();
    for part in parts {
        hasher.update(part);
    }
    hasher.finalize().into()
}

fn drawn_bytes() -> [u8; 64] {
    let mut bytes = [0u8; 64];
    for (i, b) in bytes.iter_mut().enumerate() {
        *b = (i as u8).wrapping_mul(7).wrapping_add(3);
    }
    bytes
}

fn small(n: u8) -> [u8; 32] {
    let mut bytes = [0u8; 32];
    bytes[0] = n;
    bytes
}

#[test]
fn nonce_is_what_was_drawn() {
    let drawn = [0x5au8; 16];
    assert_eq!(generate_nonce(Some(drawn)), Ok(drawn));
    let long = [0xa5u8; 32];
    assert_eq!(generate_nonce(Some(long)), Ok(long));
}

#[test]
fn nonce_fails_when_the_generator_fails() {
    assert_eq!(generate_nonce::<16>(None), Err(Error::Rng));
}

#[test]
fn ssid_hashes_tag_then_server_nonce_then_client_nonce() {
    let s = [1u8; 16];
    let t = [2u8; 16];
    let expected = digest_of(&[&[0, 0, 0, 0], &s, &t]);
    assert_eq!(compute_ssid(s, t), expected);
    assert_ne!(compute_ssid(t, s), expected);
}

#[test]
fn keypair_is_bound_to_ssid_prs_and_channel() {
    let ssid = [9u8; 64];
    let prs = [8u8; 32];
    let ci = b"test-ci";
    let drawn = drawn_bytes();
    let (private, public) = match generate_keypair(Some(drawn), ssid, prs, ci) {
        Ok(pair) => pair,
        Err(_) => panic!("a key pair is owed when bytes were drawn"),
    };

    let expected_private = DalekScalar::from_bytes_mod_order_wide(&digest_of(&[&drawn]));
    let generator = DalekPoint::from_uniform_bytes(&digest_of(&[&[1, 0, 0, 0], &ssid, &prs, ci]));
    let expected_public = generator * expected_private;
    assert_eq!(private.to_bytes(), expected_private.to_bytes());
    assert_eq!(public.to_bytes(), expected_public.compress().to_bytes());

    let other_channel = match generate_keypair(Some(drawn), ssid, prs, b"other-ci") {
        Ok(pair) => pair,
        Err(_) => panic!("a key pair is owed when bytes were drawn"),
    };
    assert_eq!(other_channel.0.to_bytes(), private.to_bytes());
    assert_ne!(other_channel.1.to_bytes(), public.to_bytes());
}

#[test]
fn keypair_fails_when_the_generator_fails() {
    let outcome = generate_keypair(None, [0u8; 64], [0u8; 32], b"ci");
    assert!(matches!(outcome, Err(Error::Rng)));
}

#[test]
fn server_keypair_is_a_multiple_of_the_basepoint() {
    let drawn = drawn_bytes();
    let (private, public) = match generate_server_keypair(Some(drawn)) {
        Ok(pair) => pair,
        Err(_) => panic!("a key pair is owed when bytes were drawn"),
    };
    let expected_private = DalekScalar::from_bytes_mod_order_wide(&digest_of(&[&drawn]));
    let expected_public = RISTRETTO_BASEPOINT_POINT * expected_private;
    assert_eq!(private.to_bytes(), expected_private.to_bytes());
    assert_eq!(public.to_bytes(), expected_public.compress().to_bytes());
}

#[test]
fn server_keypair_fails_when_the_generator_fails() {
    assert!(matches!(generate_server_keypair(None), Err(Error::Rng)));
}

#[test]
fn first_session_key_hashes_ssid_and_shared_point() {
    let ssid = [3u8; 64];
    let private = Scalar::from_bytes_mod_order(small(77));
    let public = RistrettoPoint::basepoint().mul(&Scalar::from_bytes_mod_order(small(5)));
    let sk1 = compute_first_session_key(ssid, private, public);

    let shared = CompressedRistretto(public.to_bytes())
        .decompress()
        .expect("a product decodes")
        * DalekScalar::from(77u8);
    let expected = digest_of(&[&[2, 0, 0, 0], &ssid, shared.compress().as_bytes()]);
    assert_eq!(sk1, expected);
}

#[test]
fn both_sides_compute_the_same_first_session_key() {
    let ssid = [4u8; 64];
    let prs = [6u8; 32];
    let ours = generate_keypair(Some(drawn_bytes()), ssid, prs, b"ci");
    let theirs = generate_keypair(Some([0x11u8; 64]), ssid, prs, b"ci");
    let ((x, x_pub), (y, y_pub)) = match (ours, theirs) {
        (Ok(a), Ok(b)) => (a, b),
        _ => panic!("key pairs are owed when bytes were drawn"),
    };
    assert_eq!(
        compute_first_session_key(ssid, x, y_pub),
        compute_first_session_key(ssid, y, x_pub)
    );
}

#[test]
fn authenticators_use_their_own_roles() {
    let ssid = [1u8; 64];
    let sk1 = [2u8; 64];
    let (ta, tb) = compute_authenticator_messages(ssid, sk1);
    assert_eq!(ta, digest_of(&[&[3, 0, 0, 0], &ssid, &sk1]));
    assert_eq!(tb, digest_of(&[&[4, 0, 0, 0], &ssid, &sk1]));
    assert_ne!(ta, tb);
}

#[test]
fn session_key_uses_its_own_role() {
    let ssid = [1u8; 64];
    let sk1 = [2u8; 64];
    let sk = compute_session_key(ssid, sk1);
    assert_eq!(sk, digest_of(&[&[5, 0, 0, 0], &ssid, &sk1]));
    let (ta, tb) = compute_authenticator_messages(ssid, sk1);
    assert_ne!(sk, ta);
    assert_ne!(sk, tb);
}

#[test]
fn password_hash_without_output_is_empty() {
    let outcome = scalar_from_hash(&PasswordHash { hash: None });
    assert!(matches!(outcome, Err(Error::HashEmpty)));
}

#[test]
fn password_hash_of_32_bytes_is_reduced() {
    let outcome = scalar_from_hash(&PasswordHash { hash: Some(small(3).to_vec()) });
    match outcome {
        Ok(scalar) => assert_eq!(scalar.to_bytes(), small(3)),
        Err(_) => panic!("32 bytes are accepted"),
    }
    let all_ones = [0xffu8; 32];
    let outcome = scalar_from_hash(&PasswordHash { hash: Some(all_ones.to_vec()) });
    match outcome {
        Ok(scalar) => assert_eq!(
            scalar.to_bytes(),
            DalekScalar::from_bytes_mod_order(all_ones).to_bytes()
        ),
        Err(_) => panic!("32 bytes are accepted"),
    }
}

#[test]
fn password_hash_of_64_bytes_is_reduced_wide() {
    let mut wide = [0u8; 64];
    wide[0] = 4;
    let outcome = scalar_from_hash(&PasswordHash { hash: Some(wide.to_vec()) });
    match outcome {
        Ok(scalar) => assert_eq!(scalar.to_bytes(), small(4)),
        Err(_) => panic!("64 bytes are accepted"),
    }
    let all_ones = [0xffu8; 64];
    let outcome = scalar_from_hash(&PasswordHash { hash: Some(all_ones.to_vec()) });
    match outcome {
        Ok(scalar) => assert_eq!(
            scalar.to_bytes(),
            DalekScalar::from_bytes_mod_order_wide(&all_ones).to_bytes()
        ),
        Err(_) => panic!("64 bytes are accepted"),
    }
}

#[test]
fn password_hash_of_another_length_is_refused() {
    for len in [0usize, 1, 16, 31, 33, 48, 63, 65, 128] {
        let outcome = scalar_from_hash(&PasswordHash { hash: Some(vec![1u8; len]) });
        assert!(matches!(outcome, Err(Error::HashSizeInvalid)), "length {}", len);
    }
}
