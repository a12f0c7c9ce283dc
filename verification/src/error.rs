//! Failures of the engine: every fallible operation returns one of these
//! values, and none is ever swallowed.

use vstd::prelude::*;

verus! {

/// The classes into which the failures fall. Callers that only need to know
/// how to react (fix the configuration, discard the payload, ...) match on
/// the class instead of on the individual [`CryptError`].
#[derive(Debug, Clone, Copy, PartialEq, Eq, Structural)]
pub enum ErrorKind {
    /// An argument is unusable as such.
    InvalidInput,
    /// A size violates its policy: the configuration has to change.
    Constraint,
    /// The key-derivation function rejected its inputs.
    Derivation,
    /// The operation needs key material that is absent, or must not be
    /// performed while some material is present.
    NotAvailable,
    /// A signature or tag does not match: the payload is void.
    Integrity,
    /// A signature or key is not a well-formed encoding.
    Decoding,
}

/// A failure of the engine.
#[derive(Debug, Clone, Copy, PartialEq, Eq)]
pub enum CryptError {
    /// The repeating mask of an XOR was empty.
    EmptyMask,
    /// A direction was spelled neither `encrypt` nor `decrypt`.
    UnknownDirection,
    /// The size `value` violates the policy called `name`.
    Constraint { name: &'static str, value: usize },
    /// The key-derivation function rejected salt, key or output length.
    Derivation,
    /// No signing keypair was generated.
    NoSigningKeys,
    /// Signing needs the secret key, which is absent.
    NoSecretKey,
    /// The public key is absent.
    NoPublicKey,
    /// Verification was attempted by a holder of the secret key.
    SecretKeyPresent,
    /// Decryption needs a stored tag or signature, and none is stored.
    NoIntegrity,
    /// The secret key is not an encoding of one.
    MalformedSecretKey,
    /// The public key is not an encoding of one.
    MalformedPublicKey,
    /// The signature is not an encoding of one.
    MalformedSignature,
    /// The signature does not fit message and public key.
    InvalidSignature,
    /// The stored tag differs from the tag of what was received.
    InvalidTag,
}

impl CryptError {
    /// The class of this failure.
    pub open spec fn spec_kind(&self) -> ErrorKind {
        match self {
            CryptError::EmptyMask | CryptError::UnknownDirection => ErrorKind::InvalidInput,
            CryptError::Constraint { .. } => ErrorKind::Constraint,
            CryptError::Derivation => ErrorKind::Derivation,
            CryptError::NoSigningKeys
            | CryptError::NoSecretKey
            | CryptError::NoPublicKey
            | CryptError::SecretKeyPresent
            | CryptError::NoIntegrity => ErrorKind::NotAvailable,
            CryptError::MalformedSecretKey
            | CryptError::MalformedPublicKey
            | CryptError::MalformedSignature => ErrorKind::Decoding,
            CryptError::InvalidSignature | CryptError::InvalidTag => ErrorKind::Integrity,
        }
    }

    /// The class of this failure.
    #[verifier::when_used_as_spec(spec_kind)]
    pub fn kind(&self) -> (kind: ErrorKind)
        ensures
            kind == self.spec_kind(),
    {
        match self {
            CryptError::EmptyMask | CryptError::UnknownDirection => ErrorKind::InvalidInput,
            CryptError::Constraint { .. } => ErrorKind::Constraint,
            CryptError::Derivation => ErrorKind::Derivation,
            CryptError::NoSigningKeys
            | CryptError::NoSecretKey
            | CryptError::NoPublicKey
            | CryptError::SecretKeyPresent
            | CryptError::NoIntegrity => ErrorKind::NotAvailable,
            CryptError::MalformedSecretKey
            | CryptError::MalformedPublicKey
            | CryptError::MalformedSignature => ErrorKind::Decoding,
            CryptError::InvalidSignature | CryptError::InvalidTag => ErrorKind::Integrity,
        }
    }
}

} // verus!
