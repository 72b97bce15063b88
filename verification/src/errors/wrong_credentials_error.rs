//! The error of a login with wrong credentials.

use vstd::prelude::*;

verus! {

pub struct WrongCredentialsError;

impl WrongCredentialsError {
    /// The text the error is shown with.
    pub fn to_message(&self) -> (s: String)
        ensures
            s@ == "The specified credentials are wrong."@,
    {
        crate::text::to_owned_string("The specified credentials are wrong.")
    }
}

} // verus!
