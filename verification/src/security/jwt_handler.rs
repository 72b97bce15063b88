//! The claims carried by an authentication token, and the token's framing.

use vstd::prelude::*;
use crate::clock::system_clock_reading;
use crate::security::role::Role;

verus! {

/// The word that precedes a token in an `Authorization` header.
pub const TOKEN_PREFIX: &'static str = "Bearer";

/// How long a token stays valid, in seconds.
pub const TOKEN_EXPIRATION: u32 = 360000;

/// The claims of an authentication token.
pub struct TokenClaims {
    pub sub: i64,
    pub username: String,
    pub roles: Role,
    pub iat: u64,
    pub exp: u64,
}

/// Why claims could not be issued at the current time.
#[derive(Debug, Clone, Copy, PartialEq, Eq, Structural)]
pub enum ClaimsTimeError {
    /// The system clock reads a time before the UNIX epoch.
    ClockBeforeEpoch,
    /// The expiration time does not fit in 64 bits.
    ExpirationOverflow,
}

/// The claims issued for `id` at the clock reading `now`: no reading means
/// the clock is before the epoch, a reading whose expiration does not fit in
/// 64 bits is refused, and otherwise the claims are issued at that reading and
/// expire `TOKEN_EXPIRATION` seconds later.
pub open spec fn claims_outcome(
    r: Result<TokenClaims, ClaimsTimeError>,
    id: i64,
    username: Seq<char>,
    roles: Role,
    now: Option<u64>,
) -> bool {
    match now {
        None => r == Err::<TokenClaims, ClaimsTimeError>(ClaimsTimeError::ClockBeforeEpoch),
        Some(iat) => if iat + TOKEN_EXPIRATION > u64::MAX {
            r == Err::<TokenClaims, ClaimsTimeError>(ClaimsTimeError::ExpirationOverflow)
        } else {
            r matches Ok(c) && c.sub == id && c.username@ == username && c.roles == roles && c.iat
                == iat && c.exp == iat + TOKEN_EXPIRATION
        },
    }
}

impl TokenClaims {
    /// Claims for user `id` issued at `iat`, expiring `TOKEN_EXPIRATION` seconds later.
    pub fn issued_at(id: i64, username: String, roles: Role, iat: u64) -> (c: TokenClaims)
        requires
            iat + TOKEN_EXPIRATION <= u64::MAX,
        ensures
            c.sub == id,
            c.username@ == username@,
            c.roles == roles,
            c.iat == iat,
            c.exp == iat + TOKEN_EXPIRATION,
    {
        TokenClaims { sub: id, username, roles, iat, exp: iat + TOKEN_EXPIRATION as u64 }
    }

    /// Claims for user `id` issued at the clock reading `now` (seconds since
    /// the UNIX epoch, `None` when the clock reads a time before it): an error
    /// when there is no reading or the expiration does not fit in 64 bits.
    pub fn from_clock_reading(id: i64, username: String, roles: Role, now: Option<u64>) -> (r: Result<
        TokenClaims,
        ClaimsTimeError,
    >)
        ensures
            claims_outcome(r, id, username@, roles, now),
    {
        match now {
            None => Err(ClaimsTimeError::ClockBeforeEpoch),
            Some(iat) => {
                if iat > u64::MAX - TOKEN_EXPIRATION as u64 {
                    Err(ClaimsTimeError::ExpirationOverflow)
                } else {
                    Ok(TokenClaims::issued_at(id, username, roles, iat))
                }
            },
        }
    }

    /// Claims for user `id` issued now by the system clock: what
    /// `from_clock_reading` gives for the clock's reading.
    pub fn new(id: i64, username: String, roles: Role) -> (r: Result<TokenClaims, ClaimsTimeError>)
        ensures
            exists|now: Option<u64>| claims_outcome(r, id, username@, roles, now),
            r matches Ok(c) ==> {
                &&& c.sub == id
                &&& c.username@ == username@
                &&& c.roles == roles
                &&& c.exp == c.iat + TOKEN_EXPIRATION
            },
            r matches Err(e) ==> (e == ClaimsTimeError::ExpirationOverflow
                || e == ClaimsTimeError::ClockBeforeEpoch),
    {
        let now = match system_clock_reading() {
            Ok((secs, _)) => Some(secs),
            Err(_) => None,
        };
        let r = TokenClaims::from_clock_reading(id, username, roles, now);
        assert(claims_outcome(r, id, username@, roles, now));
        r
    }

    pub fn get_id(&self) -> (r: i64)
        ensures
            r == self.sub,
    {
        self.sub
    }

    pub fn get_username(&self) -> (r: &str)
        ensures
            r@ == self.username@,
    {
        self.username.as_str()
    }

    pub fn get_role(&self) -> (r: &Role)
        ensures
            *r == self.roles,
    {
        &self.roles
    }

    pub fn get_issued_at(&self) -> (r: u64)
        ensures
            r == self.iat,
    {
        self.iat
    }

    pub fn get_expiration(&self) -> (r: u64)
        ensures
            r == self.exp,
    {
        self.exp
    }
}

/// An encoded token as handed to clients: the prefix, a space, and the token.
pub fn bearer_token(token: &str) -> (s: String)
    ensures
        s@ == TOKEN_PREFIX@ + seq![' '] + token@,
{
    let mut s = crate::text::to_owned_string(TOKEN_PREFIX);
    crate::text::push_char(&mut s, ' ');
    crate::text::push_str(&mut s, token);
    s
}

} // verus!
