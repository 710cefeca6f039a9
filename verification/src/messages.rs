//! The messages that client and server exchange.
//!
//! The messages are values; putting them on a wire and reading them back is
//! the caller's business.

use crate::group::RistrettoPoint;
use vstd::prelude::*;
use vstd::string::StringExecFns;

verus! {

/// The name of the group, as the augmentation messages carry it.
pub open spec fn group_name() -> Seq<char> {
    "ristretto255"@
}

/// The default parameters of the password hashing function: none.
pub open spec fn default_params() -> Seq<char> {
    Seq::<char>::empty()
}

/// The group's name as an owned string.
pub fn group_name_string() -> (name: String)
    ensures
        name@ == group_name(),
{
    String::from_str("ristretto255")
}

/// A message from the server to the client.
pub enum ServerMessage {
    /// The server's nonce for the session identifier.
    Nonce([u8; 16]),
    /// What the client needs to recompute the verifier.
    AugmentationInfo {
        /// The group that the exchange runs in.
        group: String,
        /// The server's ephemeral public key for the augmentation layer.
        x_pub: RistrettoPoint,
        /// The salt of the user's password hash, in PHC form.
        salt: String,
        /// The parameters of the password hashing function, in PHC form.
        pbkdf_params: String,
    },
    /// What the client needs to recompute the verifier when the salt is
    /// obtained obliviously.
    StrongAugmentationInfo {
        /// The group that the exchange runs in.
        group: String,
        /// The server's ephemeral public key for the augmentation layer.
        x_pub: RistrettoPoint,
        /// The client's blinded element raised to the user's secret exponent.
        blinded_salt: RistrettoPoint,
        /// The parameters of the password hashing function, in PHC form.
        pbkdf_params: String,
    },
    /// The server's public key for the CPace substep.
    PublicKey(RistrettoPoint),
    /// The server's authenticator.
    Authenticator([u8; 64]),
}

/// A message from the client to the server.
pub enum ClientMessage {
    /// The client's nonce for the session identifier.
    Nonce([u8; 16]),
    /// The client's public key for the CPace substep.
    PublicKey(RistrettoPoint),
    /// The client's authenticator.
    Authenticator([u8; 64]),
}

} // verus!
