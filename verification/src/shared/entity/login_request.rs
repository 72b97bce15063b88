//! The credentials of a login.

use vstd::prelude::*;

verus! {

/// The user name and password a login is made with.
pub struct LoginRequest<'a> {
    pub username: &'a str,
    pub password: &'a str,
}

} // verus!
