//! The action that a caller asks for.

use crate::error::CryptError;
use crate::target::{lowercase_of, to_lowercase};
use vstd::prelude::*;
use vstd::string::StringExecFns;

verus! {

/// What a caller asks for.
#[derive(Debug, PartialEq, Eq, Structural)]
pub enum Action {
    Encrypt,
    Decrypt,
}

/// The action that a lower-case word names.
pub open spec fn action_named(word: Seq<char>) -> Result<Action, CryptError> {
    if word == "encrypt"@ {
        Ok(Action::Encrypt)
    } else if word == "decrypt"@ {
        Ok(Action::Decrypt)
    } else {
        Err(CryptError::UnknownDirection)
    }
}

impl Action {
    /// The word for the action.
    pub open spec fn spec_name(&self) -> &'static str {
        match self {
            Action::Encrypt => "encrypt",
            Action::Decrypt => "decrypt",
        }
    }

    /// The word for the action.
    #[verifier::when_used_as_spec(spec_name)]
    pub fn name(&self) -> (word: &'static str)
        ensures
            word == self.spec_name(),
    {
        match self {
            Action::Encrypt => "encrypt",
            Action::Decrypt => "decrypt",
        }
    }

    /// The action that `word` names, letter for letter.
    pub fn from_lowercase(word: &str) -> (r: Result<Self, CryptError>)
        ensures
            r == action_named(word@),
    {
        let word = String::from_str(word);
        if word == String::from_str("encrypt") {
            Ok(Action::Encrypt)
        } else if word == String::from_str("decrypt") {
            Ok(Action::Decrypt)
        } else {
            Err(CryptError::UnknownDirection)
        }
    }

    /// The action that `action` names, in whatever case it is written.
    pub fn from_str(action: &str) -> (r: Result<Self, CryptError>)
        ensures
            r == action_named(lowercase_of(action@)),
    {
        let lower = to_lowercase(action);
        Self::from_lowercase(lower.as_str())
    }
}

} // verus!
