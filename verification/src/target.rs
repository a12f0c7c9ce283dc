//! The direction of a job.

use crate::error::CryptError;
use vstd::prelude::*;
use vstd::string::StringExecFns;

verus! {

/// What a job does with its input.
#[derive(Debug, PartialEq, Eq, Clone, Copy, Structural)]
pub enum Target {
    Encrypt,
    Decrypt,
}

/// The lower-case form of a text, as Unicode defines it.
pub uninterp spec fn lowercase_of(text: Seq<char>) -> Seq<char>;

/// `str::to_lowercase`: the text with every character replaced by its
/// lower-case form. The result depends on the text alone.
#[verifier::external_body]
pub(crate) fn to_lowercase(text: &str) -> (lower: String)
    ensures
        lower@ == lowercase_of(text@),
{
    text.to_lowercase()
}

/// The direction that a lower-case word names.
pub open spec fn target_named(word: Seq<char>) -> Result<Target, CryptError> {
    if word == "encrypt"@ {
        Ok(Target::Encrypt)
    } else if word == "decrypt"@ {
        Ok(Target::Decrypt)
    } else {
        Err(CryptError::UnknownDirection)
    }
}

impl Target {
    /// The word for the direction.
    pub open spec fn spec_name(&self) -> &'static str {
        match self {
            Target::Encrypt => "encrypt",
            Target::Decrypt => "decrypt",
        }
    }

    /// The word for the direction.
    #[verifier::when_used_as_spec(spec_name)]
    pub fn name(&self) -> (word: &'static str)
        ensures
            word == self.spec_name(),
    {
        match self {
            Target::Encrypt => "encrypt",
            Target::Decrypt => "decrypt",
        }
    }

    /// The direction that `word` names, letter for letter.
    pub fn from_lowercase(word: &str) -> (r: Result<Self, CryptError>)
        ensures
            r == target_named(word@),
    {
        let word = String::from_str(word);
        if word == String::from_str("encrypt") {
            Ok(Target::Encrypt)
        } else if word == String::from_str("decrypt") {
            Ok(Target::Decrypt)
        } else {
            Err(CryptError::UnknownDirection)
        }
    }

    /// The direction that `action` names, in whatever case it is written.
    pub fn from_str(action: &str) -> (r: Result<Self, CryptError>)
        ensures
            r == target_named(lowercase_of(action@)),
    {
        let lower = to_lowercase(action);
        Self::from_lowercase(lower.as_str())
    }
}

impl Default for Target {
    /// Encryption.
    fn default() -> (target: Self)
        ensures
            target == Target::Encrypt,
    {
        Target::Encrypt
    }
}

} // verus!
