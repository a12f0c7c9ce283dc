//! The types of other crates that pass through this library. Each is opaque:
//! a value can be handed on, and nothing is known of what it holds.

use vstd::prelude::*;

verus! {

/// `rand::rngs::ThreadRng`, the handle of the generator that each thread
/// owns.
#[verifier::external_type_specification]
#[verifier::external_body]
pub struct ExThreadRng(rand::rngs::ThreadRng);

/// `argon2::Error`, the reason for which Argon2 rejects its inputs.
#[verifier::external_type_specification]
#[verifier::external_body]
pub struct ExArgon2Error(argon2::Error);

/// `pqcrypto::sign::dilithium5::PublicKey`, a decoded Dilithium5 public key.
#[verifier::external_type_specification]
#[verifier::external_body]
pub struct ExPublicKey(pqcrypto::sign::dilithium5::PublicKey);

/// `pqcrypto::sign::dilithium5::SecretKey`, a decoded Dilithium5 secret key.
#[verifier::external_type_specification]
#[verifier::external_body]
pub struct ExSecretKey(pqcrypto::sign::dilithium5::SecretKey);

/// `pqcrypto::sign::dilithium5::DetachedSignature`, a decoded Dilithium5
/// signature that stands apart from its message.
#[verifier::external_type_specification]
#[verifier::external_body]
pub struct ExDetachedSignature(pqcrypto::sign::dilithium5::DetachedSignature);

/// `pqcrypto::traits::Error`, the reason for which bytes do not decode.
#[verifier::external_type_specification]
#[verifier::external_body]
pub struct ExDecodeError(pqcrypto::traits::Error);

/// `pqcrypto::traits::sign::VerificationError`, the reason for which a
/// signature is turned down.
#[verifier::external_type_specification]
#[verifier::external_body]
pub struct ExVerificationError(pqcrypto::traits::sign::VerificationError);

} // verus!
