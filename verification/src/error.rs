//! Errors of the key exchange.

use vstd::prelude::*;

verus! {

/// What can go wrong in a session. Every error ends the session it occurs in.
#[derive(Clone, Copy, Debug, PartialEq, Eq, Structural)]
pub enum Error {
    /// The random number generator failed to fill a buffer.
    Rng,
    /// The password hash holds no output.
    HashEmpty,
    /// The output of the password hash is neither 32 nor 64 bytes long.
    HashSizeInvalid,
    /// A received group element is the identity or does not decode.
    IllegalPoint,
    /// A pre-established session identifier is too short.
    InsufficientSsidLength,
    /// An authenticator did not match.
    AuthenticationFailed,
    /// The password hashing function reported a failure.
    PasswordHashing,
}

} // verus!
