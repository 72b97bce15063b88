//! Logging in: checking credentials and issuing a token.

use vstd::prelude::*;
use crate::entity::user::User;
use crate::security::role::Role;
use crate::service::query::{fails_with, keeps_pace, succeeds_with, Action, Query, Reply};
use crate::shared::entity::login_request::LoginRequest;
use crate::shared::errors::error_enum::{ErrorView, ErrorsEnum, TOKEN_PARSING_ERROR_MSG};

verus! {

/// What bcrypt's `verify` answers for a password and a stored hash: whether
/// the password hashes to it, or `None` when the hash cannot be read.
pub uninterp spec fn bcrypt_verify_result(password: Seq<char>, hash: Seq<char>) -> Option<bool>;

/// Calls `bcrypt::verify(password, hash)`; its result, with the error turned
/// into `None`, is the one `bcrypt_verify_result` names.
#[verifier::external_body]
fn bcrypt_verify(password: &str, hash: &str) -> (r: Option<bool>)
    ensures
        r == bcrypt_verify_result(password@, hash@),
{
    bcrypt::verify(password, hash).ok()
}

/// The login matches the stored user: the same user name, and a password
/// that verifies against the stored hash (an unreadable hash never does).
pub open spec fn credentials_match(login: LoginRequest, user: User) -> bool {
    login.username@ == user.username@ && bcrypt_verify_result(login.password@, user.password@) == Some(
        true,
    )
}

fn check_credentials(login: &LoginRequest, user: &User) -> (b: bool)
    ensures
        b == credentials_match(*login, *user),
{
    let username_matches = crate::text::str_eq(login.username, user.username.as_str());
    let password_matches = match bcrypt_verify(login.password, user.password.as_str()) {
        Some(b) => b,
        None => false,
    };
    username_matches && password_matches
}

/// Logging in.
pub enum Authenticate<'a> {
    AwaitUser { login: LoginRequest<'a> },
    AwaitToken,
    Finished,
}

impl<'a> Authenticate<'a> {
    pub open spec fn awaits(&self, reply: Reply) -> bool {
        match self {
            Authenticate::AwaitUser { .. } => reply is User,
            Authenticate::AwaitToken => reply is Token,
            Authenticate::Finished => false,
        }
    }

    /// The stored role of a user whose credentials match can be read.
    pub open spec fn role_readable(&self, reply: Reply) -> bool {
        match (self, reply) {
            (Authenticate::AwaitUser { login }, Reply::User(Ok(user))) => credentials_match(*login, user)
                ==> Role::spec_from_name(user.role@) is Some,
            _ => true,
        }
    }

    /// What a step does with a reply.
    pub open spec fn step_post(self, reply: Reply, r: (Authenticate<'a>, Action<'a, String>)) -> bool {
        match (self, reply) {
            (Authenticate::AwaitUser { login }, Reply::User(u)) => match u {
                Err(_) => fails_with(r.1, ErrorView::WrongCredentials),
                Ok(user) => if credentials_match(login, user) {
                    r.0 == Authenticate::<'a>::AwaitToken && r.1 == Action::<'a, String>::Run(
                        Query::GenerateToken(
                            user.id,
                            user.username,
                            Role::spec_from_name(user.role@).unwrap(),
                        ),
                    )
                } else {
                    fails_with(r.1, ErrorView::WrongCredentials)
                },
            },
            (Authenticate::AwaitToken, Reply::Token(t)) => match t {
                Ok(token) => succeeds_with(r.1, token),
                Err(_) => fails_with(r.1, ErrorView::TokenError(TOKEN_PARSING_ERROR_MSG@)),
            },
            _ => false,
        }
    }

    /// The user with the login's name is looked up first.
    pub fn start(login: LoginRequest<'a>) -> (r: (Authenticate<'a>, Action<'a, String>))
        ensures
            r.0 == (Authenticate::AwaitUser { login }),
            r.1 == Action::<'a, String>::Run(Query::UserByUsername(login.username)),
            keeps_pace(r.1, |rep: Reply| r.0.awaits(rep)),
    {
        let username = login.username;
        (Authenticate::AwaitUser { login }, Action::Run(Query::UserByUsername(username)))
    }

    /// An unknown user or credentials that do not match are wrong
    /// credentials; otherwise a token is issued for the user with their
    /// stored role, and a failure to issue it is a token error.
    pub fn step(self, reply: Reply) -> (r: (Authenticate<'a>, Action<'a, String>))
        requires
            self.awaits(reply),
            self.role_readable(reply),
        ensures
            self.step_post(reply, r),
            keeps_pace(r.1, |rep: Reply| r.0.awaits(rep)),
    {
        match (self, reply) {
            (Authenticate::AwaitUser { login }, Reply::User(u)) => match u {
                Err(_) => (Authenticate::Finished, Action::Done(Err(ErrorsEnum::WrongCredentials))),
                Ok(user) => {
                    if check_credentials(&login, &user) {
                        let role = Role::from_str(user.role.as_str());
                        match role {
                            Some(role) => (
                                Authenticate::AwaitToken,
                                Action::Run(Query::GenerateToken(user.id, user.username, role)),
                            ),
                            None => (Authenticate::Finished, Action::Done(Err(ErrorsEnum::WrongCredentials))),
                        }
                    } else {
                        (Authenticate::Finished, Action::Done(Err(ErrorsEnum::WrongCredentials)))
                    }
                },
            },
            (Authenticate::AwaitToken, Reply::Token(t)) => match t {
                Ok(token) => (Authenticate::Finished, Action::Done(Ok(token))),
                Err(_) => (
                    Authenticate::Finished,
                    Action::Done(
                        Err(ErrorsEnum::TokenError(crate::text::to_owned_string(TOKEN_PARSING_ERROR_MSG))),
                    ),
                ),
            },
            (s, _) => (s, Action::Done(Err(ErrorsEnum::WrongCredentials))),
        }
    }

    /// Steps as `step` does, or answers `None` when the credentials match a
    /// user whose stored role cannot be read (a state the login cannot go on
    /// from).
    pub fn try_step(self, reply: Reply) -> (r: Option<(Authenticate<'a>, Action<'a, String>)>)
        requires
            self.awaits(reply),
        ensures
            r is None <==> !self.role_readable(reply),
            r matches Some(x) ==> self.step_post(reply, x),
            r matches Some(x) ==> keeps_pace(x.1, |rep: Reply| x.0.awaits(rep)),
    {
        let readable = match (&self, &reply) {
            (Authenticate::AwaitUser { login }, Reply::User(Ok(user))) => {
                match Role::from_str(user.role.as_str()) {
                    Some(_) => true,
                    None => !check_credentials(login, user),
                }
            },
            _ => true,
        };
        if readable {
            Some(self.step(reply))
        } else {
            None
        }
    }
}

} // verus!
