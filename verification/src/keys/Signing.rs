//! The Dilithium5 signing keypair and what its two halves can do.

use crate::error::CryptError;
use crate::ops::bytes_of;
use pqcrypto::sign::dilithium5::{DetachedSignature, PublicKey, SecretKey};
use vstd::prelude::*;

verus! {

/// Bytes of an encoded public key.
pub const PUBLIC_KEY_BYTES: usize = 2592;

/// Bytes of an encoded secret key.
pub const SECRET_KEY_BYTES: usize = 4864;

/// Bytes of a signature.
pub const SIGNATURE_BYTES: usize = 4595;

/// The two halves of a signing keypair, or of anything that comes in a
/// secret and a public form.
#[derive(Debug, Clone)]
pub struct Keys<T> {
    pub secret: T,
    pub public: T,
}

/// What a keypair of byte strings holds: each half, where present.
pub struct Pair {
    pub secret: Option<Seq<u8>>,
    pub public: Option<Seq<u8>>,
}

/// The bytes of an optional byte string.
pub open spec fn optional_bytes(bytes: Option<Vec<u8>>) -> Option<Seq<u8>> {
    match bytes {
        Some(b) => Some(b@),
        None => None,
    }
}

impl View for Keys<Option<Vec<u8>>> {
    type V = Pair;

    open spec fn view(&self) -> Pair {
        Pair { secret: optional_bytes(self.secret), public: optional_bytes(self.public) }
    }
}

/// The bytes that a decoded public key encodes to.
pub uninterp spec fn public_key_bytes(key: PublicKey) -> Seq<u8>;

/// The bytes that a decoded secret key encodes to.
pub uninterp spec fn secret_key_bytes(key: SecretKey) -> Seq<u8>;

/// The bytes that a decoded signature encodes to.
pub uninterp spec fn signature_bytes(signature: DetachedSignature) -> Seq<u8>;

/// The Dilithium5 signature of `message` under the encoded secret key
/// `secret`. Signing draws no randomness.
pub uninterp spec fn dilithium5_signature(message: Seq<u8>, secret: Seq<u8>) -> Seq<u8>;

/// Whether Dilithium5 accepts `signature` for `message` under the encoded
/// public key `public`.
pub uninterp spec fn dilithium5_accepts(
    signature: Seq<u8>,
    message: Seq<u8>,
    public: Seq<u8>,
) -> bool;

/// The two halves belong together: what the secret half signs has the
/// length of a signature, and the public half accepts it.
pub open spec fn pair_matches(public: Seq<u8>, secret: Seq<u8>) -> bool {
    forall|message: Seq<u8>|
        {
            &&& (#[trigger] dilithium5_signature(message, secret)).len() == SIGNATURE_BYTES
            &&& dilithium5_accepts(dilithium5_signature(message, secret), message, public)
        }
}

/// `dilithium5::keypair`, both keys encoded with `as_bytes`: a fresh pair,
/// each half of its fixed length, and, as the scheme promises of the pairs
/// it generates, signatures made with the secret half have the scheme's one
/// signature length and verify under the public half.
#[verifier::external_body]
fn dilithium5_keypair() -> (pair: (Vec<u8>, Vec<u8>))
    ensures
        pair.0@.len() == PUBLIC_KEY_BYTES,
        pair.1@.len() == SECRET_KEY_BYTES,
        pair_matches(pair.0@, pair.1@),
{
    let (public, secret) = pqcrypto::sign::dilithium5::keypair();
    (
        pqcrypto::traits::sign::PublicKey::as_bytes(&public).to_vec(),
        pqcrypto::traits::sign::SecretKey::as_bytes(&secret).to_vec(),
    )
}

/// `SecretKey::from_bytes` of Dilithium5: decodes exactly the byte strings
/// of the secret key's length, and keeps the bytes.
#[verifier::external_body]
fn decode_secret_key(bytes: &Vec<u8>) -> (r: Result<SecretKey, pqcrypto::traits::Error>)
    ensures
        r is Ok <==> bytes@.len() == SECRET_KEY_BYTES,
        r matches Ok(key) ==> secret_key_bytes(key) == bytes@,
{
    pqcrypto::traits::sign::SecretKey::from_bytes(bytes.as_slice())
}

/// `PublicKey::from_bytes` of Dilithium5: decodes exactly the byte strings
/// of the public key's length, and keeps the bytes.
#[verifier::external_body]
fn decode_public_key(bytes: &Vec<u8>) -> (r: Result<PublicKey, pqcrypto::traits::Error>)
    ensures
        r is Ok <==> bytes@.len() == PUBLIC_KEY_BYTES,
        r matches Ok(key) ==> public_key_bytes(key) == bytes@,
{
    pqcrypto::traits::sign::PublicKey::from_bytes(bytes.as_slice())
}

/// `DetachedSignature::from_bytes` of Dilithium5: decodes the byte strings
/// that are no longer than a signature, and keeps the bytes.
#[verifier::external_body]
fn decode_signature(bytes: &Vec<u8>) -> (r: Result<DetachedSignature, pqcrypto::traits::Error>)
    ensures
        r is Ok <==> bytes@.len() <= SIGNATURE_BYTES,
        r matches Ok(signature) ==> signature_bytes(signature) == bytes@,
{
    pqcrypto::traits::sign::DetachedSignature::from_bytes(bytes.as_slice())
}

/// `dilithium5::detached_sign`, the signature encoded with `as_bytes`: the
/// signature of the message under the key, of the scheme's fixed length.
#[verifier::external_body]
fn detached_sign(message: &Vec<u8>, secret: &SecretKey) -> (signature: Vec<u8>)
    ensures
        signature@ == dilithium5_signature(message@, secret_key_bytes(*secret)),
        signature@.len() == SIGNATURE_BYTES,
{
    let signature = pqcrypto::sign::dilithium5::detached_sign(message.as_slice(), secret);
    pqcrypto::traits::sign::DetachedSignature::as_bytes(&signature).to_vec()
}

/// `dilithium5::verify_detached_signature`: succeeds exactly where the
/// scheme accepts the signature for the message under the key.
#[verifier::external_body]
fn verify_detached_signature(
    signature: &DetachedSignature,
    message: &Vec<u8>,
    public: &PublicKey,
) -> (r: Result<(), pqcrypto::traits::sign::VerificationError>)
    ensures
        r is Ok <==> dilithium5_accepts(
            signature_bytes(*signature),
            message@,
            public_key_bytes(*public),
        ),
{
    pqcrypto::sign::dilithium5::verify_detached_signature(signature, message.as_slice(), public)
}

impl Pair {
    /// What signing `message` returns.
    pub open spec fn signed(self, message: Seq<u8>) -> Result<Seq<u8>, CryptError> {
        match self.secret {
            None => Err(CryptError::NoSecretKey),
            Some(secret) => if secret.len() == SECRET_KEY_BYTES {
                Ok(dilithium5_signature(message, secret))
            } else {
                Err(CryptError::MalformedSecretKey)
            },
        }
    }

    /// What verifying `signature` on `message` returns. Only a party that
    /// holds no secret key may verify.
    pub open spec fn verified(self, message: Seq<u8>, signature: Seq<u8>) -> Result<
        bool,
        CryptError,
    > {
        if self.secret is Some {
            Err(CryptError::SecretKeyPresent)
        } else {
            match self.public {
                None => Err(CryptError::NoPublicKey),
                Some(public) => if public.len() != PUBLIC_KEY_BYTES {
                    Err(CryptError::MalformedPublicKey)
                } else if signature.len() > SIGNATURE_BYTES {
                    Err(CryptError::MalformedSignature)
                } else if dilithium5_accepts(signature, message, public) {
                    Ok(true)
                } else {
                    Err(CryptError::InvalidSignature)
                },
            }
        }
    }

    /// The public form: the same public key, and no secret key. There is
    /// none where the public key is absent.
    pub open spec fn public_only(self) -> Result<Pair, CryptError> {
        match self.public {
            None => Err(CryptError::NoPublicKey),
            Some(public) => Ok(Pair { secret: None, public: Some(public) }),
        }
    }

    /// Both halves are present and belong together.
    pub open spec fn complete(self) -> bool {
        &&& self.secret matches Some(secret)
        &&& self.public matches Some(public)
        &&& secret.len() == SECRET_KEY_BYTES
        &&& public.len() == PUBLIC_KEY_BYTES
        &&& pair_matches(public, secret)
    }
}

/// The keypair of a result, where it holds one.
pub open spec fn pair_of(r: Result<Keys<Option<Vec<u8>>>, CryptError>) -> Result<Pair, CryptError> {
    match r {
        Ok(keys) => Ok(keys@),
        Err(e) => Err(e),
    }
}

impl Keys<Option<Vec<u8>>> {
    /// A fresh Dilithium5 keypair.
    pub fn new() -> (keys: Self)
        ensures
            keys@.complete(),
    {
        let (public, secret) = dilithium5_keypair();
        Keys { secret: Some(secret), public: Some(public) }
    }

    /// Signs `input` with the secret key.
    pub fn sign(&self, input: Vec<u8>) -> (r: Result<Vec<u8>, CryptError>)
        ensures
            bytes_of(r) == self@.signed(input@),
            r matches Ok(signature) ==> signature@.len() == SIGNATURE_BYTES,
    {
        match &self.secret {
            None => Err(CryptError::NoSecretKey),
            Some(bytes) => match decode_secret_key(bytes) {
                Ok(secret) => Ok(detached_sign(&input, &secret)),
                Err(_) => Err(CryptError::MalformedSecretKey),
            },
        }
    }

    /// Verifies `signature` on `input` with the public key. The holder of
    /// the secret key is turned away: signing and verifying are kept apart.
    pub fn verify(&self, input: Vec<u8>, signature: Vec<u8>) -> (r: Result<bool, CryptError>)
        ensures
            r == self@.verified(input@, signature@),
    {
        if self.secret.is_some() {
            return Err(CryptError::SecretKeyPresent);
        }
        match &self.public {
            None => Err(CryptError::NoPublicKey),
            Some(bytes) => match decode_public_key(bytes) {
                Err(_) => Err(CryptError::MalformedPublicKey),
                Ok(public) => match decode_signature(&signature) {
                    Err(_) => Err(CryptError::MalformedSignature),
                    Ok(detached) => match verify_detached_signature(&detached, &input, &public) {
                        Ok(_) => Ok(true),
                        Err(_) => Err(CryptError::InvalidSignature),
                    },
                },
            },
        }
    }

    /// The keypair without its secret half.
    pub fn public(&self) -> (r: Result<Self, CryptError>)
        ensures
            pair_of(r) == self@.public_only(),
    {
        match &self.public {
            None => Err(CryptError::NoPublicKey),
            Some(bytes) => Ok(Keys { secret: None, public: Some(bytes.clone()) }),
        }
    }
}

} // verus!
