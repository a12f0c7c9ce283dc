//! A symmetric authenticated-encryption engine.
//!
//! A job takes a key, an IV and a payload. The payload is encrypted in a
//! keystream mode that chains each block to the ciphertext before it; block
//! size, integrity kind, IV and ciphertext together form the construction,
//! which is signed with a Dilithium5 key or tagged with a keyed hash. On the
//! way back nothing is decrypted before signature or tag have been verified.

#![allow(non_snake_case)]

pub mod actions;
pub mod cipher;
pub mod consts;
pub mod defaults;
pub mod error;
pub mod keys;
pub mod laws;
pub mod ops;
pub mod outside;
pub mod parameters;
pub mod target;

use crate::cipher::{
    be_bytes, big_endian, decrypted, encrypted, lemma_decrypted_len, lemma_encrypted_len, pass,
};
use crate::consts::{block_size, iv_size, tag_size};
use crate::error::CryptError;
use crate::keys::Signing::{optional_bytes, SIGNATURE_BYTES};
use crate::keys::{Keys, KeysView};
use crate::ops::{bytes_of, concat, keyedHash, keyed_hash, randomness};
use crate::target::Target;
use vstd::prelude::*;

verus! {

/// How the construction is protected, and the value that protects it once
/// there is one: a signature, or a keyed-hash tag.
#[derive(Debug, Clone)]
pub enum Integrity {
    Signed(Option<Vec<u8>>),
    Unsigned(Option<Vec<u8>>),
}

/// Bytes of the header that precedes the IV in the construction.
pub const HEADER_BYTES: usize = 3;

/// What an [`Integrity`] holds.
pub enum IntegrityView {
    Signed(Option<Seq<u8>>),
    Unsigned(Option<Seq<u8>>),
}

impl IntegrityView {
    /// The byte that stands for the kind in the construction.
    pub open spec fn kind(self) -> u8 {
        match self {
            IntegrityView::Signed(_) => 0,
            IntegrityView::Unsigned(_) => 1,
        }
    }

    /// The stored signature or tag.
    pub open spec fn value(self) -> Option<Seq<u8>> {
        match self {
            IntegrityView::Signed(value) => value,
            IntegrityView::Unsigned(value) => value,
        }
    }
}

impl View for Integrity {
    type V = IntegrityView;

    open spec fn view(&self) -> IntegrityView {
        match self {
            Integrity::Signed(value) => IntegrityView::Signed(optional_bytes(*value)),
            Integrity::Unsigned(value) => IntegrityView::Unsigned(optional_bytes(*value)),
        }
    }
}

impl Integrity {
    /// The byte that stands for the kind in the construction.
    pub fn kind(&self) -> (byte: u8)
        ensures
            byte == self@.kind(),
    {
        match self {
            Integrity::Signed(_) => 0,
            Integrity::Unsigned(_) => 1,
        }
    }

    /// The kind that `byte` stands for, with no value stored yet. Only 0 and
    /// 1 stand for a kind.
    pub fn from_kind(byte: u8) -> (r: Option<Self>)
        ensures
            match r {
                Some(integrity) => integrity@.kind() == byte && integrity@.value() is None,
                None => byte > 1,
            },
    {
        if byte == 0 {
            Some(Integrity::Signed(None))
        } else if byte == 1 {
            Some(Integrity::Unsigned(None))
        } else {
            None
        }
    }
}

impl From<Integrity> for u8 {
    /// The byte that stands for the kind in the construction.
    fn from(integrity: Integrity) -> (byte: u8) {
        integrity.kind()
    }
}

impl vstd::std_specs::convert::FromSpecImpl<Integrity> for u8 {
    open spec fn obeys_from_spec() -> bool {
        true
    }

    open spec fn from_spec(integrity: Integrity) -> u8 {
        integrity@.kind()
    }
}

/// One job: a payload to encrypt or decrypt, with everything needed for it.
///
/// Encryption stores the signature or tag in `integrity`; decryption expects
/// to find it there.
#[derive(Debug, Clone)]
pub struct Crypt {
    pub target: Target,
    pub keys: Keys,
    pub block_size: u16,
    pub iv: Vec<u8>,
    pub input: Vec<u8>,
    pub integrity: Integrity,
}

/// What a job holds.
pub struct CryptView {
    pub target: Target,
    pub keys: KeysView,
    pub block_size: u16,
    pub iv: Seq<u8>,
    pub input: Seq<u8>,
    pub integrity: IntegrityView,
}

impl CryptView {
    /// The bytes that are signed or tagged: block size, integrity kind, IV
    /// and ciphertext.
    pub open spec fn construction(self, cyphered: Seq<u8>) -> Seq<u8> {
        be_bytes(self.block_size as nat, 2) + seq![self.integrity.kind()] + self.iv + cyphered
    }

    /// The construction is laid out at fixed offsets: two bytes of block
    /// size, one of integrity kind, the IV, and the ciphertext to the end.
    pub proof fn lemma_construction_layout(self, cyphered: Seq<u8>)
        ensures
            self.construction(cyphered).len() == HEADER_BYTES + self.iv.len() + cyphered.len(),
            self.construction(cyphered).subrange(0, 2) == be_bytes(self.block_size as nat, 2),
            self.construction(cyphered)[0] == self.block_size / 256,
            self.construction(cyphered)[1] == self.block_size % 256,
            self.construction(cyphered)[2] == self.integrity.kind(),
            self.construction(cyphered).subrange(
                HEADER_BYTES as int,
                HEADER_BYTES + self.iv.len(),
            ) == self.iv,
            self.construction(cyphered).skip(HEADER_BYTES + self.iv.len()) == cyphered,
    {
        reveal_with_fuel(be_bytes, 3);
        let construction = self.construction(cyphered);
        assert(be_bytes(self.block_size as nat, 2).len() == 2);
        assert(construction.subrange(0, 2) =~= be_bytes(self.block_size as nat, 2));
        assert(construction.subrange(HEADER_BYTES as int, HEADER_BYTES + self.iv.len())
            =~= self.iv);
        assert(construction.skip(HEADER_BYTES + self.iv.len()) =~= cyphered);
    }

    /// What the sizes of the job amount to under their policies: the block
    /// size is judged first, then the IV's length.
    pub open spec fn constraint(self) -> Result<(), CryptError> {
        match block_size().verdict(self.block_size as int) {
            Err(e) => Err(e),
            Ok(_) => iv_size().verdict(self.iv.len() as int),
        }
    }

    /// What the keystream pass returns, and what the job is afterwards. The
    /// sizes are checked and the sub-key is fetched; then the input is
    /// enciphered or deciphered, as the direction says. No integrity value
    /// is looked at.
    pub open spec fn cyphered(self) -> (Result<Seq<u8>, CryptError>, CryptView) {
        match self.constraint() {
            Err(e) => (Err(e), self),
            Ok(_) => {
                let (key, keys) = self.keys.sub_key_outcome();
                let keyed = CryptView { keys, ..self };
                match (key, self.target) {
                    (Err(e), _) => (Err(e), keyed),
                    (Ok(key), Target::Encrypt) => (
                        Ok(encrypted(key, self.iv, self.block_size as nat, self.input)),
                        keyed,
                    ),
                    (Ok(key), Target::Decrypt) => (
                        Ok(decrypted(key, self.iv, self.block_size as nat, self.input)),
                        keyed,
                    ),
                }
            },
        }
    }

    /// The tag of `construction` under the sub-key `key`.
    pub open spec fn tag(key: Seq<u8>, construction: Seq<u8>) -> Seq<u8> {
        keyed_hash(construction, key, tag_size().default as nat)
    }

    /// The integrity value that encryption stores for `construction`: the
    /// signature under the secret key, or the tag under the sub-key.
    pub open spec fn protection(self, key: Seq<u8>, construction: Seq<u8>) -> Result<
        IntegrityView,
        CryptError,
    > {
        match self.integrity {
            IntegrityView::Signed(_) => match self.keys.signing_pair() {
                Err(e) => Err(e),
                Ok(pair) => match pair.signed(construction) {
                    Err(e) => Err(e),
                    Ok(signature) => Ok(IntegrityView::Signed(Some(signature))),
                },
            },
            IntegrityView::Unsigned(_) => Ok(
                IntegrityView::Unsigned(Some(Self::tag(key, construction))),
            ),
        }
    }

    /// What encryption returns, and what the job is afterwards. The sizes
    /// are checked, the sub-key is fetched, the input is enciphered, and the
    /// construction is signed or tagged; the first failure ends the job.
    pub open spec fn sealed(self) -> (Result<Seq<u8>, CryptError>, CryptView) {
        match self.constraint() {
            Err(e) => (Err(e), self),
            Ok(_) => {
                let (key, keys) = self.keys.sub_key_outcome();
                let keyed = CryptView { keys, ..self };
                match key {
                    Err(e) => (Err(e), keyed),
                    Ok(key) => {
                        let cyphered = encrypted(
                            key,
                            self.iv,
                            self.block_size as nat,
                            self.input,
                        );
                        match keyed.protection(key, self.construction(cyphered)) {
                            Err(e) => (Err(e), keyed),
                            Ok(integrity) => (Ok(cyphered), CryptView { integrity, ..keyed }),
                        }
                    },
                }
            },
        }
    }

    /// What the verification of the stored signature returns. No sub-key is
    /// needed for it.
    pub open spec fn signature_verdict(self, signature: Seq<u8>) -> Result<bool, CryptError> {
        match self.keys.signing_pair() {
            Err(e) => Err(e),
            Ok(pair) => pair.verified(self.construction(self.input), signature),
        }
    }

    /// What deciphering under the sub-key returns, and what the job is
    /// afterwards. With `tag`, the input is deciphered only if the tag is
    /// that of the construction.
    pub open spec fn unlocked(self, tag: Option<Seq<u8>>) -> (
        Result<Seq<u8>, CryptError>,
        CryptView,
    ) {
        let (key, keys) = self.keys.sub_key_outcome();
        let keyed = CryptView { keys, ..self };
        match key {
            Err(e) => (Err(e), keyed),
            Ok(key) => if tag matches Some(tag) && tag != Self::tag(
                key,
                self.construction(self.input),
            ) {
                (Err(CryptError::InvalidTag), keyed)
            } else {
                (Ok(decrypted(key, self.iv, self.block_size as nat, self.input)), keyed)
            },
        }
    }

    /// What decryption returns, and what the job is afterwards. The sizes
    /// are checked; then the stored signature or tag must be there and must
    /// be that of the construction; only then is the input deciphered.
    pub open spec fn opened(self) -> (Result<Seq<u8>, CryptError>, CryptView) {
        match (self.constraint(), self.integrity) {
            (Err(e), _) => (Err(e), self),
            (Ok(_), IntegrityView::Signed(Some(signature))) => match self.signature_verdict(
                signature,
            ) {
                Err(e) => (Err(e), self),
                Ok(_) => self.unlocked(None),
            },
            (Ok(_), IntegrityView::Unsigned(Some(tag))) => self.unlocked(Some(tag)),
            (Ok(_), _) => (Err(CryptError::NoIntegrity), self),
        }
    }

    /// What processing returns, and what the job is afterwards.
    pub open spec fn processed(self) -> (Result<Seq<u8>, CryptError>, CryptView) {
        match self.target {
            Target::Encrypt => self.sealed(),
            Target::Decrypt => self.opened(),
        }
    }
}

impl View for Crypt {
    type V = CryptView;

    open spec fn view(&self) -> CryptView {
        CryptView {
            target: self.target,
            keys: self.keys@,
            block_size: self.block_size,
            iv: self.iv@,
            input: self.input@,
            integrity: self.integrity@,
        }
    }
}

/// Whether two byte strings are the same.
fn same_bytes(left: &Vec<u8>, right: &Vec<u8>) -> (same: bool)
    ensures
        same == (left@ == right@),
{
    if left.len() != right.len() {
        return false;
    }
    let mut i: usize = 0;
    while i < left.len()
        invariant
            left.len() == right.len(),
            i <= left.len(),
            left@.take(i as int) == right@.take(i as int),
        decreases left.len() - i,
    {
        if left[i] != right[i] {
            return false;
        }
        assert(left@.take(i + 1) =~= left@.take(i as int).push(left@[i as int]));
        assert(right@.take(i + 1) =~= right@.take(i as int).push(right@[i as int]));
        i += 1;
    }
    assert(left@ =~= left@.take(left.len() as int));
    assert(right@ =~= right@.take(right.len() as int));
    true
}

impl Crypt {
    /// Checks block size and IV length against their policies.
    fn constraint(&self) -> (r: Result<(), CryptError>)
        ensures
            r == self@.constraint(),
    {
        match block_size().check(self.block_size) {
            Err(e) => Err(e),
            Ok(_) => iv_size().check_len(self.iv.len()),
        }
    }

    /// The bytes that are signed or tagged for the ciphertext `cyphered`.
    pub fn construct(&self, cyphered: Vec<u8>) -> (construction: Vec<u8>)
        ensures
            construction@ == self@.construction(cyphered@),
    {
        let mut header = big_endian(self.block_size as u64, 2);
        header.push(self.integrity.kind());
        concat(concat(header, &self.iv), &cyphered)
    }

    /// The tag of `construction` under the sub-key `key`.
    fn tag(key: &Vec<u8>, construction: &Vec<u8>) -> (tag: Vec<u8>)
        ensures
            tag@ == CryptView::tag(key@, construction@),
            tag@.len() == tag_size().default,
    {
        keyedHash(construction, key, Some(tag_size().default))
    }

    /// The keystream pass alone: enciphers or deciphers the input under the
    /// sub-key, as the direction says, once the sizes have been checked. No
    /// signature or tag is made or verified.
    pub fn cypher(&mut self) -> (r: Result<Vec<u8>, CryptError>)
        ensures
            (bytes_of(r), final(self)@) == old(self)@.cyphered(),
            r matches Ok(out) ==> out@.len() == old(self)@.input.len(),
    {
        match self.constraint() {
            Err(e) => return Err(e),
            Ok(_) => {},
        }
        let key = match self.keys.subKey() {
            Err(e) => return Err(e),
            Ok(key) => key,
        };
        proof {
            lemma_encrypted_len(key@, self.iv@, self.block_size as nat, self.input@);
            lemma_decrypted_len(key@, self.iv@, self.block_size as nat, self.input@);
        }
        match self.target {
            Target::Encrypt => Ok(pass(&key, &self.iv, self.block_size, &self.input, true)),
            Target::Decrypt => Ok(pass(&key, &self.iv, self.block_size, &self.input, false)),
        }
    }

    /// Runs the job. Encryption returns the ciphertext and stores signature
    /// or tag in `integrity`. Decryption verifies the stored signature or
    /// tag first and returns the plaintext only if it holds. Whatever the
    /// outcome, at most the sub-key cache of the keys changes besides.
    pub fn process(&mut self) -> (r: Result<Vec<u8>, CryptError>)
        ensures
            (bytes_of(r), final(self)@) == old(self)@.processed(),
            r matches Ok(out) ==> out@.len() == old(self)@.input.len(),
            r is Ok && old(self)@.target == Target::Encrypt ==> match final(self)@.integrity {
                IntegrityView::Unsigned(Some(tag)) => tag.len() == tag_size().default,
                IntegrityView::Signed(Some(signature)) => signature.len() == SIGNATURE_BYTES,
                _ => false,
            },
    {
        match self.constraint() {
            Err(e) => return Err(e),
            Ok(_) => {},
        }
        match self.target {
            Target::Encrypt => {
                let cyphered = match self.cypher() {
                    Err(e) => return Err(e),
                    Ok(cyphered) => cyphered,
                };
                let construction = self.construct(keys::copy_bytes(&cyphered));
                match &self.integrity {
                    Integrity::Signed(_) => {
                        let pair = match self.keys.signing() {
                            Err(e) => return Err(e),
                            Ok(pair) => pair,
                        };
                        match pair.sign(construction) {
                            Err(e) => return Err(e),
                            Ok(signature) => {
                                self.integrity = Integrity::Signed(Some(signature));
                            },
                        }
                    },
                    Integrity::Unsigned(_) => {
                        let key = match self.keys.subKey() {
                            Err(e) => return Err(e),
                            Ok(key) => key,
                        };
                        self.integrity = Integrity::Unsigned(
                            Some(Self::tag(&key, &construction)),
                        );
                    },
                }
                Ok(cyphered)
            },
            Target::Decrypt => {
                let construction = self.construct(keys::copy_bytes(&self.input));
                match &self.integrity {
                    Integrity::Signed(Some(signature)) => {
                        let pair = match self.keys.signing() {
                            Err(e) => return Err(e),
                            Ok(pair) => pair,
                        };
                        match pair.verify(construction, keys::copy_bytes(signature)) {
                            Err(e) => return Err(e),
                            Ok(_) => {},
                        }
                        self.cypher()
                    },
                    Integrity::Unsigned(Some(tag)) => {
                        let stored = keys::copy_bytes(tag);
                        let key = match self.keys.subKey() {
                            Err(e) => return Err(e),
                            Ok(key) => key,
                        };
                        if !same_bytes(&stored, &Self::tag(&key, &construction)) {
                            return Err(CryptError::InvalidTag);
                        }
                        self.cypher()
                    },
                    _ => Err(CryptError::NoIntegrity),
                }
            },
        }
    }

    /// A job with a given IV. Without `block_size` the default block size is
    /// used.
    pub fn import(
        target: Target,
        keys: Keys,
        iv: Vec<u8>,
        block_size: Option<u16>,
        input: Vec<u8>,
        integrity: Integrity,
    ) -> (job: Self)
        ensures
            job@ == (CryptView {
                target,
                keys: keys@,
                block_size: block_size.unwrap_or(consts::block_size().default),
                iv: iv@,
                input: input@,
                integrity: integrity@,
            }),
    {
        Crypt {
            target,
            keys,
            block_size: match block_size {
                Some(size) => size,
                None => consts::block_size().default,
            },
            iv,
            input,
            integrity,
        }
    }

    /// A job with a fresh random IV of `iv_size` bytes. Without `iv_size` or
    /// `block_size` the defaults are used.
    pub fn new(
        target: Target,
        keys: Keys,
        iv_size: Option<u16>,
        block_size: Option<u16>,
        input: Vec<u8>,
        integrity: Integrity,
    ) -> (job: Self)
        ensures
            job@.iv.len() == iv_size.unwrap_or(consts::iv_size().default),
            job@ == (CryptView {
                target,
                keys: keys@,
                block_size: block_size.unwrap_or(consts::block_size().default),
                iv: job@.iv,
                input: input@,
                integrity: integrity@,
            }),
    {
        Crypt {
            target,
            keys,
            block_size: match block_size {
                Some(size) => size,
                None => consts::block_size().default,
            },
            iv: randomness(
                match iv_size {
                    Some(size) => size,
                    None => consts::iv_size().default,
                },
            ),
            input,
            integrity,
        }
    }
}

} // verus!
