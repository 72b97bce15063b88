//! The authenticated user attached to a request, and how the token is read
//! from the request's `Authorization` header.

use vstd::prelude::*;
use crate::security::jwt_handler::{TokenClaims, TOKEN_PREFIX};
use crate::security::role::Role;

verus! {

/// The user a request is made by.
pub struct AuthUser {
    pub id: i64,
    pub role: Role,
}

impl AuthUser {
    pub fn new(id: i64, role: Role) -> (u: AuthUser)
        ensures
            u.id == id,
            u.role == role,
    {
        AuthUser { id, role }
    }

    /// The user named by the claims of a token.
    pub fn from(claims: TokenClaims) -> (u: AuthUser)
        ensures
            u.id == claims.sub,
            u.role == claims.roles,
    {
        AuthUser { id: claims.get_id(), role: *claims.get_role() }
    }

    pub fn get_id(&self) -> (r: i64)
        ensures
            r == self.id,
    {
        self.id
    }

    pub fn get_role(&self) -> (r: Role)
        ensures
            r == self.role,
    {
        self.role
    }
}

/// What precedes the token in an `Authorization` header.
pub open spec fn bearer_header_prefix() -> Seq<char> {
    "Bearer "@
}

/// The token carried by an `Authorization` header: the text after `Bearer `,
/// or the empty text when the header is missing or has another form.
pub open spec fn spec_token_from_header(header: Option<Seq<char>>) -> Seq<char> {
    match header {
        Some(h) => if h.len() >= bearer_header_prefix().len() && h.take(
            bearer_header_prefix().len() as int,
        ) == bearer_header_prefix() {
            h.skip(bearer_header_prefix().len() as int)
        } else {
            Seq::empty()
        },
        None => Seq::empty(),
    }
}

/// A token handed out with the bearer prefix (as `bearer_token` writes it)
/// reads back from the `Authorization` header unchanged.
pub proof fn lemma_bearer_token_read_back(token: Seq<char>)
    ensures
        spec_token_from_header(Some(TOKEN_PREFIX@ + seq![' '] + token)) == token,
{
    reveal_strlit("Bearer");
    reveal_strlit("Bearer ");
    let h = TOKEN_PREFIX@ + seq![' '] + token;
    assert(h.take(bearer_header_prefix().len() as int) =~= bearer_header_prefix());
    assert(h.skip(bearer_header_prefix().len() as int) =~= token);
}

/// Reads the token from the value of a request's `Authorization` header.
pub fn token_from_header(header: Option<&str>) -> (t: String)
    ensures
        t@ == spec_token_from_header(
            match header {
                Some(h) => Some(h@),
                None => None,
            },
        ),
{
    match header {
        None => String::new(),
        Some(h) => {
            let v = crate::text::chars_of(h);
            let prefix = crate::text::chars_of("Bearer ");
            let n = prefix.len();
            assert(prefix@ == bearer_header_prefix());
            if v.len() < n {
                return String::new();
            }
            let mut i: usize = 0;
            while i < n
                invariant
                    n == prefix.len() <= v.len(),
                    prefix@ == bearer_header_prefix(),
                    v@ == h@,
                    header == Some(h),
                    i <= n,
                    forall|j: int| 0 <= j < i ==> v@[j] == prefix@[j],
                decreases n - i,
            {
                if v[i] != prefix[i] {
                    assert(v@.take(n as int)[i as int] != prefix@[i as int]);
                    assert(v@.take(n as int) != bearer_header_prefix());
                    return String::new();
                }
                i = i + 1;
            }
            assert(v@.take(n as int) =~= prefix@);
            let mut t = String::new();
            let mut k = n;
            while k < v.len()
                invariant
                    n <= k <= v.len(),
                    t@ == v@.subrange(n as int, k as int),
                decreases v.len() - k,
            {
                crate::text::push_char(&mut t, v[k]);
                assert(v@.subrange(n as int, k as int).push(v@[k as int]) =~= v@.subrange(
                    n as int,
                    k + 1 as int,
                ));
                k = k + 1;
            }
            assert(v@.subrange(n as int, v.len() as int) =~= v@.skip(n as int));
            t
        },
    }
}

/// Requests with the `OPTIONS` method pass without authentication.
pub fn no_auth_needed(method_is_options: bool) -> (b: bool)
    ensures
        b == method_is_options,
{
    method_is_options
}

} // verus!
