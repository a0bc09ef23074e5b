//! Why a matcher could not be built from a token.

use vstd::prelude::*;
use vstd::string::*;

verus! {

/// The two ways in which building a matcher fails. Each carries the token
/// that was refused, as it was given.
#[derive(Debug, PartialEq, Eq)]
pub enum ConstructionError {
    /// The token names a kind of entry that is known but not implemented.
    UnsupportedType(String),
    /// The token is no type code at all on this platform.
    UnrecognizedType(String),
}

/// Whether `needle` stands somewhere in `text`, whole and unbroken.
pub open spec fn occurs_in(needle: Seq<char>, text: Seq<char>) -> bool {
    exists|at: int|
        0 <= at && at + needle.len() <= text.len() && #[trigger] text.subrange(
            at,
            at + needle.len(),
        ) =~= needle
}

impl ConstructionError {
    /// The token that was refused.
    pub open spec fn spec_token(&self) -> Seq<char> {
        match self {
            ConstructionError::UnsupportedType(token) => token@,
            ConstructionError::UnrecognizedType(token) => token@,
        }
    }

    /// The text of the report for this error.
    pub open spec fn spec_message(&self) -> Seq<char> {
        match self {
            ConstructionError::UnsupportedType(token) => "Type argument "@ + token@
                + " not supported yet"@,
            ConstructionError::UnrecognizedType(token) => "Unrecognised type argument "@ + token@,
        }
    }

    /// The token that was refused.
    pub fn token(&self) -> (token: &str)
        ensures
            token@ == self.spec_token(),
    {
        match self {
            ConstructionError::UnsupportedType(token) => token.as_str(),
            ConstructionError::UnrecognizedType(token) => token.as_str(),
        }
    }

    /// The report for this error, for the user who gave the token. It
    /// quotes the token.
    pub fn message(&self) -> (message: String)
        ensures
            message@ == self.spec_message(),
            occurs_in(self.spec_token(), message@),
    {
        match self {
            ConstructionError::UnsupportedType(token) => {
                let head = "Type argument ";
                let message = head.to_owned().concat(token.as_str()).concat(" not supported yet");
                proof {
                    let at = head@.len() as int;
                    assert(message@.subrange(at, at + token@.len()) =~= token@);
                }
                message
            },
            ConstructionError::UnrecognizedType(token) => {
                let head = "Unrecognised type argument ";
                let message = head.to_owned().concat(token.as_str());
                proof {
                    let at = head@.len() as int;
                    assert(message@.subrange(at, at + token@.len()) =~= token@);
                }
                message
            },
        }
    }
}

} // verus!
