//! Key material: the symmetric key with its salt, the working sub-key that
//! is derived from them on first use, and an optional signing keypair.

pub mod Signing;

use crate::consts::{crypt_key_size, salt_size, signing_key_size};
use crate::error::CryptError;
use crate::ops::{argon2id_accepts, argon2id_output, bytes_of, deriveKey, randomness};
use vstd::prelude::*;

verus! {

/// The key material of one party.
///
/// The sub-key is not part of what is stored: it is derived from salt and
/// key when it is first asked for, and kept from then on.
#[derive(Debug)]
pub struct Keys {
    salt: Vec<u8>,
    cypher: Vec<u8>,
    signing: Option<Signing::Keys<Option<Vec<u8>>>>,
    subKey: Option<Vec<u8>>,
}

/// What key material holds.
pub struct KeysView {
    pub salt: Seq<u8>,
    pub cypher: Seq<u8>,
    pub signing: Option<Signing::Pair>,
    pub sub_key: Option<Seq<u8>>,
}

/// What the sizes of a signing keypair amount to under their policies.
pub open spec fn pair_constraint(pair: Signing::Pair) -> Result<(), CryptError> {
    let secret = match pair.secret {
        Some(secret) => signing_key_size().secret.verdict(secret.len() as int),
        None => Ok(()),
    };
    match (secret, pair.public) {
        (Err(e), _) => Err(e),
        (Ok(_), Some(public)) => signing_key_size().public.verdict(public.len() as int),
        (Ok(_), None) => Ok(()),
    }
}

/// What the two sizes asked of fresh key material amount to under their
/// policies: the key's size is judged first.
pub open spec fn generation_constraint(salt_len: u16, key_len: u16) -> Result<(), CryptError> {
    match crypt_key_size().verdict(key_len as int) {
        Err(e) => Err(e),
        Ok(_) => salt_size().verdict(salt_len as int),
    }
}

impl KeysView {
    /// The sub-key that salt and key determine.
    pub open spec fn derived(self) -> Seq<u8> {
        argon2id_output(self.cypher, self.salt, self.cypher.len())
    }

    /// Whether the sub-key can be derived at all.
    pub open spec fn derivable(self) -> bool {
        argon2id_accepts(self.cypher, self.salt, self.cypher.len())
    }

    /// A cached sub-key is the one that salt and key determine.
    pub open spec fn consistent(self) -> bool {
        self.sub_key matches Some(key) ==> {
            &&& self.derivable()
            &&& key == self.derived()
            &&& key.len() == self.cypher.len()
        }
    }

    /// The first violation of a size policy, if there is one: the key's
    /// size, then the secret and the public signing key's.
    pub open spec fn constraint(self) -> Result<(), CryptError> {
        match (crypt_key_size().verdict(self.cypher.len() as int), self.signing) {
            (Err(e), _) => Err(e),
            (Ok(_), Some(pair)) => pair_constraint(pair),
            (Ok(_), None) => Ok(()),
        }
    }

    /// What asking for the sub-key returns, and what the key material is
    /// afterwards: a violated policy is reported; a cached sub-key is handed
    /// out as it is; else the sub-key is derived and cached, unless the
    /// derivation rejects salt or key.
    pub open spec fn sub_key_outcome(self) -> (Result<Seq<u8>, CryptError>, KeysView) {
        match (self.constraint(), self.sub_key) {
            (Err(e), _) => (Err(e), self),
            (Ok(_), Some(key)) => (Ok(key), self),
            (Ok(_), None) => if self.derivable() {
                (Ok(self.derived()), KeysView { sub_key: Some(self.derived()), ..self })
            } else {
                (Err(CryptError::Derivation), self)
            },
        }
    }

    /// The signing keypair, where one was made.
    pub open spec fn signing_pair(self) -> Result<Signing::Pair, CryptError> {
        match self.signing {
            Some(pair) => Ok(pair),
            None => Err(CryptError::NoSigningKeys),
        }
    }

    /// The key material of a verifying party: no secret signing key and no
    /// cached sub-key; the rest is the same.
    pub open spec fn public_only(self) -> Result<KeysView, CryptError> {
        match self.signing {
            None => Err(CryptError::NoSigningKeys),
            Some(pair) => match pair.public_only() {
                Err(e) => Err(e),
                Ok(public) => Ok(
                    KeysView {
                        salt: self.salt,
                        cypher: self.cypher,
                        signing: Some(public),
                        sub_key: None,
                    },
                ),
            },
        }
    }
}

/// The key material of a result, where it holds any.
pub open spec fn keys_of(r: Result<Keys, CryptError>) -> Result<KeysView, CryptError> {
    match r {
        Ok(keys) => Ok(keys@),
        Err(e) => Err(e),
    }
}

/// A copy of a byte string.
pub(crate) fn copy_bytes(bytes: &Vec<u8>) -> (copy: Vec<u8>)
    ensures
        copy@ == bytes@,
{
    let mut copy: Vec<u8> = Vec::new();
    let mut i: usize = 0;
    while i < bytes.len()
        invariant
            i <= bytes.len(),
            copy@ == bytes@.take(i as int),
        decreases bytes.len() - i,
    {
        copy.push(bytes[i]);
        i += 1;
    }
    copy
}

/// A copy of an optional byte string.
pub(crate) fn copy_optional(bytes: &Option<Vec<u8>>) -> (copy: Option<Vec<u8>>)
    ensures
        Signing::optional_bytes(copy) == Signing::optional_bytes(*bytes),
{
    match bytes {
        Some(b) => Some(copy_bytes(b)),
        None => None,
    }
}

impl View for Keys {
    type V = KeysView;

    closed spec fn view(&self) -> KeysView {
        KeysView {
            salt: self.salt@,
            cypher: self.cypher@,
            signing: match self.signing {
                Some(pair) => Some(pair@),
                None => None,
            },
            sub_key: Signing::optional_bytes(self.subKey),
        }
    }
}

impl Keys {
    /// What holds of all key material: a cached sub-key is the derived one.
    #[verifier::type_invariant]
    pub open spec fn cache_is_derived(&self) -> bool {
        self@.consistent()
    }

    /// Key material from its stored parts. No sub-key is cached, and no
    /// size is checked before the sub-key is asked for.
    pub fn from_parts(
        salt: Vec<u8>,
        cypher: Vec<u8>,
        signing: Option<Signing::Keys<Option<Vec<u8>>>>,
    ) -> (keys: Self)
        ensures
            keys@ == (KeysView {
                salt: salt@,
                cypher: cypher@,
                signing: match signing {
                    Some(pair) => Some(pair@),
                    None => None,
                },
                sub_key: None,
            }),
    {
        Keys { salt, cypher, signing, subKey: None }
    }

    /// The salt.
    pub fn salt(&self) -> (salt: &Vec<u8>)
        ensures
            salt@ == self@.salt,
    {
        &self.salt
    }

    /// The symmetric key.
    pub fn key(&self) -> (key: &Vec<u8>)
        ensures
            key@ == self@.cypher,
    {
        &self.cypher
    }

    /// Checks the sizes of the key and of the signing keys against their
    /// policies.
    fn constraint(&self) -> (r: Result<(), CryptError>)
        ensures
            r == self@.constraint(),
    {
        match crypt_key_size().check_len(self.cypher.len()) {
            Err(e) => return Err(e),
            Ok(_) => {},
        }
        match &self.signing {
            None => Ok(()),
            Some(pair) => {
                match &pair.secret {
                    Some(secret) => match signing_key_size().secret.check_len(secret.len()) {
                        Err(e) => return Err(e),
                        Ok(_) => {},
                    },
                    None => {},
                }
                match &pair.public {
                    Some(public) => signing_key_size().public.check_len(public.len()),
                    None => Ok(()),
                }
            },
        }
    }

    /// The signing keypair.
    pub fn signing(&self) -> (r: Result<Signing::Keys<Option<Vec<u8>>>, CryptError>)
        ensures
            Signing::pair_of(r) == self@.signing_pair(),
    {
        match &self.signing {
            Some(pair) => Ok(
                Signing::Keys {
                    secret: copy_optional(&pair.secret),
                    public: copy_optional(&pair.public),
                },
            ),
            None => Err(CryptError::NoSigningKeys),
        }
    }

    /// The working sub-key, derived from salt and key the first time and
    /// served from the cache afterwards. The sizes are checked on every call.
    pub fn subKey(&mut self) -> (r: Result<Vec<u8>, CryptError>)
        ensures
            (bytes_of(r), final(self)@) == old(self)@.sub_key_outcome(),
            r matches Ok(key) ==> key@.len() == old(self)@.cypher.len(),
    {
        proof {
            use_type_invariant(&*self);
        }
        match self.constraint() {
            Err(e) => return Err(e),
            Ok(_) => {},
        }
        match &self.subKey {
            Some(key) => Ok(copy_bytes(key)),
            None => match deriveKey(&self.salt, &self.cypher, self.cypher.len()) {
                Err(e) => Err(e),
                Ok(derived) => {
                    self.subKey = Some(copy_bytes(&derived));
                    Ok(derived)
                },
            },
        }
    }

    /// The key material for a party that only verifies: the secret signing
    /// key is gone, and so is the cached sub-key.
    pub fn public(&self) -> (r: Result<Self, CryptError>)
        ensures
            keys_of(r) == self@.public_only(),
    {
        match &self.signing {
            None => Err(CryptError::NoSigningKeys),
            Some(pair) => match pair.public() {
                Err(e) => Err(e),
                Ok(public) => Ok(
                    Keys {
                        salt: copy_bytes(&self.salt),
                        cypher: copy_bytes(&self.cypher),
                        signing: Some(public),
                        subKey: None,
                    },
                ),
            },
        }
    }

    /// Fresh key material: a random salt and a random key of the sizes asked
    /// for (of the default sizes where none is given) and, if `signing` is
    /// set, a fresh signing keypair. Sizes that violate their policy are
    /// refused.
    pub fn new(saltSize: Option<u16>, cryptKeySize: Option<u16>, signing: bool) -> (r: Result<
        Self,
        CryptError,
    >)
        ensures
            match r {
                Err(e) => generation_constraint(
                    saltSize.unwrap_or(salt_size().default),
                    cryptKeySize.unwrap_or(crypt_key_size().default),
                ) == Err::<(), CryptError>(e),
                Ok(keys) => {
                    &&& generation_constraint(
                        saltSize.unwrap_or(salt_size().default),
                        cryptKeySize.unwrap_or(crypt_key_size().default),
                    ) is Ok
                    &&& keys@.salt.len() == saltSize.unwrap_or(salt_size().default)
                    &&& keys@.cypher.len() == cryptKeySize.unwrap_or(crypt_key_size().default)
                    &&& keys@.sub_key is None
                    &&& keys@.constraint() is Ok
                    &&& if signing {
                        keys@.signing matches Some(pair) && pair.complete()
                    } else {
                        keys@.signing is None
                    }
                },
            },
    {
        let salt_len: u16 = match saltSize {
            Some(size) => size,
            None => salt_size().default,
        };
        let key_len: u16 = match cryptKeySize {
            Some(size) => size,
            None => crypt_key_size().default,
        };
        let keys = Keys {
            salt: randomness(salt_len),
            cypher: randomness(key_len),
            signing: if signing {
                Some(Signing::Keys::new())
            } else {
                None
            },
            subKey: None,
        };
        match keys.constraint() {
            Err(e) => return Err(e),
            Ok(_) => {},
        }
        match salt_size().check(salt_len) {
            Err(e) => Err(e),
            Ok(_) => Ok(keys),
        }
    }
}

impl Clone for Keys {
    /// A copy that holds the same material, the cached sub-key included.
    fn clone(&self) -> (copy: Self)
        ensures
            copy@ == self@,
    {
        proof {
            use_type_invariant(self);
        }
        Keys {
            salt: copy_bytes(&self.salt),
            cypher: copy_bytes(&self.cypher),
            signing: match &self.signing {
                Some(pair) => Some(
                    Signing::Keys {
                        secret: copy_optional(&pair.secret),
                        public: copy_optional(&pair.public),
                    },
                ),
                None => None,
            },
            subKey: copy_optional(&self.subKey),
        }
    }
}

impl Default for Keys {
    /// Empty key material: no salt, no key, no signing keypair. It violates
    /// the key's size policy, so no sub-key can be had from it.
    fn default() -> (keys: Self)
        ensures
            keys@ == (KeysView {
                salt: Seq::empty(),
                cypher: Seq::empty(),
                signing: None,
                sub_key: None,
            }),
    {
        Keys { salt: Vec::new(), cypher: Vec::new(), signing: None, subKey: None }
    }
}

} // verus!
