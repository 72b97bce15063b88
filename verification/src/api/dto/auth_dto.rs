//! The login request body and the login response.

use vstd::prelude::*;
use crate::shared::entity::login_request::LoginRequest;

verus! {

/// The longest user name or password accepted, in characters.
pub const CREDENTIAL_MAX_LENGTH: usize = 50;

/// A user name or password is valid when it holds 1 to 50 characters.
pub open spec fn valid_credential(s: Seq<char>) -> bool {
    1 <= s.len() <= CREDENTIAL_MAX_LENGTH
}

/// A user name or password is valid exactly when it holds 1 to 50
/// characters, whatever the characters are.
pub proof fn lemma_credential_rule(s: Seq<char>)
    ensures
        valid_credential(s) <==> (1 <= s.len() && s.len() <= 50),
{
}

/// The body of a login request.
pub struct LoginRequestDto {
    pub username: String,
    pub password: String,
}

impl LoginRequestDto {
    pub fn to_login_request(&self) -> (r: LoginRequest<'_>)
        ensures
            r.username@ == self.username@,
            r.password@ == self.password@,
    {
        LoginRequest { username: self.username.as_str(), password: self.password.as_str() }
    }

    /// Whether the body meets its length rules.
    pub fn validate(&self) -> (b: bool)
        ensures
            b == (valid_credential(self.username@) && valid_credential(self.password@)),
    {
        let u = self.username.as_str().unicode_len();
        let p = self.password.as_str().unicode_len();
        1 <= u && u <= CREDENTIAL_MAX_LENGTH && 1 <= p && p <= CREDENTIAL_MAX_LENGTH
    }
}

/// The answer to a successful login.
pub struct AuthResponse {
    pub token: String,
}

} // verus!
