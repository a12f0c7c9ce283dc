//! The size policies: for every tunable size its default and the values it
//! may take.

use crate::error::CryptError;
use crate::keys::Signing;
use std::ops::Range;
use vstd::prelude::*;

verus! {

/// A size policy: a name for messages, the default, and the rule that says
/// which values are admitted.
pub struct Size<T> {
    pub name: &'static str,
    pub default: T,
    pub behaviour: Behaviour,
}

/// The rule of a size policy.
pub enum Behaviour {
    /// Only the default is admitted.
    Fixed,
    /// The values of the half-open range are admitted.
    Ranged(Range<u16>),
    /// Every value is admitted.
    Unfixed,
}

impl Size<u16> {
    /// Whether the policy admits `value`.
    pub open spec fn admits(self, value: int) -> bool {
        match self.behaviour {
            Behaviour::Fixed => self.default == value,
            Behaviour::Ranged(range) => range.start <= value < range.end,
            Behaviour::Unfixed => 0 <= value <= u16::MAX,
        }
    }

    /// What a check of `value` against the policy returns.
    pub open spec fn verdict(self, value: int) -> Result<(), CryptError> {
        if self.admits(value) {
            Ok(())
        } else {
            Err(CryptError::Constraint { name: self.name, value: value as usize })
        }
    }

    /// A policy from its parts.
    pub fn new(name: &'static str, default: u16, behaviour: Behaviour) -> (size: Self)
        ensures
            size == (Size { name, default, behaviour }),
    {
        Size { name, default, behaviour }
    }

    /// Checks `value` against the policy.
    pub fn check(&self, value: u16) -> (r: Result<(), CryptError>)
        ensures
            r == self.verdict(value as int),
    {
        let admitted = match &self.behaviour {
            Behaviour::Fixed => self.default == value,
            Behaviour::Ranged(range) => range.start <= value && value < range.end,
            Behaviour::Unfixed => true,
        };
        if admitted {
            Ok(())
        } else {
            Err(CryptError::Constraint { name: self.name, value: value as usize })
        }
    }

    /// Checks a length against the policy. A length beyond `u16` violates
    /// every policy.
    pub fn check_len(&self, len: usize) -> (r: Result<(), CryptError>)
        ensures
            r == self.verdict(len as int),
    {
        if len <= u16::MAX as usize {
            self.check(len as u16)
        } else {
            Err(CryptError::Constraint { name: self.name, value: len })
        }
    }
}

/// The default length of the symmetric key.
pub const CRYPT_KEY_SIZE_VALUE: u16 = 16;

/// The policy that admits the sizes from `least` up to, but not including,
/// the largest that sixteen bits hold.
pub open spec fn ranged(name: &'static str, default: u16, least: u16) -> Size<u16> {
    Size { name, default, behaviour: Behaviour::Ranged(Range { start: least, end: u16::MAX }) }
}

/// The policy that admits the one size `value`.
pub open spec fn fixed(name: &'static str, value: u16) -> Size<u16> {
    Size { name, default: value, behaviour: Behaviour::Fixed }
}

/// The policy of the size of the initialisation vector.
pub open spec fn spec_iv_size() -> Size<u16> {
    ranged("IV Size", 8, 8)
}

/// The policy of the size of the initialisation vector.
#[verifier::when_used_as_spec(spec_iv_size)]
pub fn iv_size() -> (size: Size<u16>)
    ensures
        size == spec_iv_size(),
{
    Size::new("IV Size", 8, Behaviour::Ranged(8..u16::MAX))
}

/// The policy of the size of the cipher block.
pub open spec fn spec_block_size() -> Size<u16> {
    ranged("Block Size", 64, 4)
}

/// The policy of the size of the cipher block.
#[verifier::when_used_as_spec(spec_block_size)]
pub fn block_size() -> (size: Size<u16>)
    ensures
        size == spec_block_size(),
{
    Size::new("Block Size", 64, Behaviour::Ranged(4..u16::MAX))
}

/// The policy of the size of the signature, fixed by Dilithium5.
pub open spec fn spec_signature_size() -> Size<u16> {
    fixed("Signature Size", Signing::SIGNATURE_BYTES as u16)
}

/// The policy of the size of the signature, fixed by Dilithium5.
#[verifier::when_used_as_spec(spec_signature_size)]
pub fn signature_size() -> (size: Size<u16>)
    ensures
        size == spec_signature_size(),
{
    Size::new("Signature Size", Signing::SIGNATURE_BYTES as u16, Behaviour::Fixed)
}

/// The policy of the size of the keyed-hash output, at least one BLAKE3 digest.
pub open spec fn spec_keyed_hash_size() -> Size<u16> {
    ranged("Keyed Hash Size", 32, 32)
}

/// The policy of the size of the keyed-hash output, at least one BLAKE3 digest.
#[verifier::when_used_as_spec(spec_keyed_hash_size)]
pub fn keyed_hash_size() -> (size: Size<u16>)
    ensures
        size == spec_keyed_hash_size(),
{
    Size::new("Keyed Hash Size", 32, Behaviour::Ranged(32..u16::MAX))
}

/// The policy of the size of the integrity tag.
pub open spec fn spec_tag_size() -> Size<u16> {
    ranged("Tag Size", 16, 16)
}

/// The policy of the size of the integrity tag.
#[verifier::when_used_as_spec(spec_tag_size)]
pub fn tag_size() -> (size: Size<u16>)
    ensures
        size == spec_tag_size(),
{
    Size::new("Tag Size", 16, Behaviour::Ranged(16..u16::MAX))
}

/// The policy of the size of the symmetric key.
pub open spec fn spec_crypt_key_size() -> Size<u16> {
    ranged("Crypt Key Size", CRYPT_KEY_SIZE_VALUE, 16)
}

/// The policy of the size of the symmetric key.
#[verifier::when_used_as_spec(spec_crypt_key_size)]
pub fn crypt_key_size() -> (size: Size<u16>)
    ensures
        size == spec_crypt_key_size(),
{
    Size::new("Crypt Key Size", CRYPT_KEY_SIZE_VALUE, Behaviour::Ranged(16..u16::MAX))
}

/// The policy of the size of the secret signing key, fixed by Dilithium5.
pub open spec fn spec_signing_secret_key_size() -> Size<u16> {
    fixed("Signing Secret Key Size", Signing::SECRET_KEY_BYTES as u16)
}

/// The policy of the size of the secret signing key, fixed by Dilithium5.
#[verifier::when_used_as_spec(spec_signing_secret_key_size)]
pub fn signing_secret_key_size() -> (size: Size<u16>)
    ensures
        size == spec_signing_secret_key_size(),
{
    Size::new("Signing Secret Key Size", Signing::SECRET_KEY_BYTES as u16, Behaviour::Fixed)
}

/// The policy of the size of the public signing key, fixed by Dilithium5.
pub open spec fn spec_signing_public_key_size() -> Size<u16> {
    fixed("Signing Public Key Size", Signing::PUBLIC_KEY_BYTES as u16)
}

/// The policy of the size of the public signing key, fixed by Dilithium5.
#[verifier::when_used_as_spec(spec_signing_public_key_size)]
pub fn signing_public_key_size() -> (size: Size<u16>)
    ensures
        size == spec_signing_public_key_size(),
{
    Size::new("Signing Public Key Size", Signing::PUBLIC_KEY_BYTES as u16, Behaviour::Fixed)
}

/// The policy of the size of the salt, at least what Argon2 asks for.
pub open spec fn spec_salt_size() -> Size<u16> {
    ranged("Salt Size", 8, 8)
}

/// The policy of the size of the salt, at least what Argon2 asks for.
#[verifier::when_used_as_spec(spec_salt_size)]
pub fn salt_size() -> (size: Size<u16>)
    ensures
        size == spec_salt_size(),
{
    Size::new("Salt Size", 8, Behaviour::Ranged(8..u16::MAX))
}

/// The policies of the two halves of the signing keypair.
pub open spec fn spec_signing_key_size() -> Signing::Keys<Size<u16>> {
    Signing::Keys { secret: spec_signing_secret_key_size(), public: spec_signing_public_key_size() }
}

/// The policies of the two halves of the signing keypair.
#[verifier::when_used_as_spec(spec_signing_key_size)]
pub fn signing_key_size() -> (sizes: Signing::Keys<Size<u16>>)
    ensures
        sizes == spec_signing_key_size(),
{
    Signing::Keys { secret: signing_secret_key_size(), public: signing_public_key_size() }
}

} // verus!
