//! The authenticated user of a request.

use vstd::prelude::*;
use crate::security::jwt_handler::TokenClaims;
use crate::security::role::Role;

verus! {

/// The user a request is made by.
#[derive(Clone, Debug)]
pub struct AuthUser {
    pub id: i64,
    pub role: Role,
}

impl AuthUser {
    pub fn new(id: i64, role: Role) -> (u: AuthUser)
        ensures
            u.id == id,
            u.role == role,
    {
        AuthUser { id, role }
    }

    /// The user named by the claims of a token.
    pub fn from(claims: TokenClaims) -> (u: AuthUser)
        ensures
            u.id == claims.sub,
            u.role == claims.roles,
    {
        AuthUser { id: claims.get_id(), role: *claims.get_role() }
    }

    pub fn get_id(&self) -> (r: i64)
        ensures
            r == self.id,
    {
        self.id
    }

    pub fn get_role(&self) -> (r: Role)
        ensures
            r == self.role,
    {
        self.role
    }
}

} // verus!
