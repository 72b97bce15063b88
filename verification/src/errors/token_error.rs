//! Errors in generating or parsing a token.

use vstd::prelude::*;

verus! {

pub struct TokenGenerationError;

impl TokenGenerationError {
    /// The text the error is shown with.
    pub fn to_message(&self) -> (s: String)
        ensures
            s@ == "There was a problem generating the token."@,
    {
        crate::text::to_owned_string("There was a problem generating the token.")
    }
}

pub struct TokenParsingError;

impl TokenParsingError {
    /// The text the error is shown with.
    pub fn to_message(&self) -> (s: String)
        ensures
            s@ == "There was a problem parsing the token."@,
    {
        crate::text::to_owned_string("There was a problem parsing the token.")
    }
}

} // verus!
