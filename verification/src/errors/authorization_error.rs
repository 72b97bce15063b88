//! The error of a request without a valid token.

use vstd::prelude::*;

verus! {

pub struct AuthorizationError;

impl AuthorizationError {
    /// The text the error is shown with.
    pub fn to_message(&self) -> (s: String)
        ensures
            s@ == "Token was not provided or invalid."@,
    {
        crate::text::to_owned_string("Token was not provided or invalid.")
    }
}

} // verus!
