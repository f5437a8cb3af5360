//! Who the caller is, as far as the service decides it.
//!
//! Tokens are signed and read elsewhere. Decided here: what a token claims
//! and until when, where the token stands in a request, and whether the
//! claims meet the role that a route asks for.

use crate::text::text_eq;
use vstd::prelude::*;
use vstd::string::StrSliceExecFns;

verus! {

/// The role of a user of the platform.
#[derive(Clone, Copy, Debug, PartialEq, Eq, Structural)]
pub enum UserRole {
    Admin,
    Lender,
    Borrower,
}

/// What a token claims: the user, the role, and the second at which the
/// token expires.
#[derive(Debug)]
pub struct JWTClaims {
    pub sub: String,
    pub role: UserRole,
    pub exp: usize,
}

/// Why a request is turned away.
#[derive(Clone, Copy, Debug, PartialEq, Eq, Structural)]
pub enum AuthError {
    MissingHeader,
    InvalidHeaderFormat,
    InvalidToken,
    /// The request carries no claims.
    MissingClaims,
    /// The claims hold another role than the one asked for.
    Forbidden,
}

impl AuthError {
    /// The HTTP status of the refusal: 403 for another role, 401 otherwise.
    pub open spec fn status(self) -> u16 {
        if self == AuthError::Forbidden {
            403
        } else {
            401
        }
    }

    /// The text of the refusal.
    pub open spec fn text(self) -> Seq<char> {
        match self {
            AuthError::MissingHeader => "Missing Authorization header"@,
            AuthError::InvalidHeaderFormat => "Invalid Authorization header format"@,
            AuthError::InvalidToken => "Invalid token"@,
            AuthError::MissingClaims => "Unauthorized"@,
            AuthError::Forbidden => "Forbidden"@,
        }
    }

    /// The HTTP status of the refusal.
    pub fn status_code(&self) -> (code: u16)
        ensures
            code == self.status(),
    {
        match self {
            AuthError::Forbidden => 403,
            _ => 401,
        }
    }

    /// The text of the refusal.
    pub fn message(&self) -> (text: String)
        ensures
            text@ == self.text(),
    {
        match self {
            AuthError::MissingHeader => "Missing Authorization header".to_string(),
            AuthError::InvalidHeaderFormat => "Invalid Authorization header format".to_string(),
            AuthError::InvalidToken => "Invalid token".to_string(),
            AuthError::MissingClaims => "Unauthorized".to_string(),
            AuthError::Forbidden => "Forbidden".to_string(),
        }
    }
}

/// A token is valid for 24 hours.
pub const TOKEN_LIFETIME_SECONDS: i64 = 86400;

/// The second at which a token issued at `issued_at` expires, where that
/// second can be told: the token is issued at or after the epoch, and its
/// expiry fits the claim.
pub open spec fn expiry(issued_at: i64) -> Option<usize> {
    if 0 <= issued_at && issued_at + TOKEN_LIFETIME_SECONDS <= i64::MAX && issued_at
        + TOKEN_LIFETIME_SECONDS <= usize::MAX {
        Some((issued_at + TOKEN_LIFETIME_SECONDS) as usize)
    } else {
        None
    }
}

/// The claims of a token for `user_id` in `role`, issued at the second
/// `issued_at` of the epoch and valid for 24 hours.
pub fn token_claims(user_id: String, role: UserRole, issued_at: i64) -> (claims: Option<JWTClaims>)
    ensures
        match expiry(issued_at) {
            Some(exp) => claims is Some && claims->Some_0.sub == user_id && claims->Some_0.role
                == role && claims->Some_0.exp == exp,
            None => claims is None,
        },
{
    if issued_at < 0 || issued_at > i64::MAX - TOKEN_LIFETIME_SECONDS {
        return None;
    }
    let expires_at: i64 = issued_at + TOKEN_LIFETIME_SECONDS;
    if expires_at as u64 > usize::MAX as u64 {
        return None;
    }
    Some(JWTClaims { sub: user_id, role, exp: expires_at as usize })
}

/// The scheme that precedes the token in the `Authorization` header.
pub open spec fn bearer_scheme() -> Seq<char> {
    "Bearer "@
}

/// The token in the value of an `Authorization` header: what follows the
/// scheme.
pub open spec fn token_in(header: Option<&str>) -> Result<Seq<char>, AuthError> {
    match header {
        None => Err(AuthError::MissingHeader),
        Some(value) => if value@.len() >= 7 && value@.subrange(0, 7) == bearer_scheme() {
            Ok(value@.subrange(7, value@.len() as int))
        } else {
            Err(AuthError::InvalidHeaderFormat)
        },
    }
}

/// Takes the token out of the value of the `Authorization` header, `None`
/// where the request has no such header.
pub fn bearer_token<'a>(header: Option<&'a str>) -> (r: Result<&'a str, AuthError>)
    ensures
        match token_in(header) {
            Ok(token) => r is Ok && r->Ok_0@ == token,
            Err(error) => r is Err && r->Err_0 == error,
        },
{
    proof {
        reveal_strlit("Bearer ");
    }
    let value = match header {
        Some(value) => value,
        None => return Err(AuthError::MissingHeader),
    };
    let length = value.unicode_len();
    if length < 7 {
        return Err(AuthError::InvalidHeaderFormat);
    }
    if !text_eq(value.substring_char(0, 7), "Bearer ") {
        return Err(AuthError::InvalidHeaderFormat);
    }
    Ok(value.substring_char(7, length))
}

/// Whether claims with the role asked for are present.
pub open spec fn role_check(claims: Option<&JWTClaims>, required_role: UserRole) -> Result<
    (),
    AuthError,
> {
    match claims {
        None => Err(AuthError::MissingClaims),
        Some(claims) => if claims.role == required_role {
            Ok(())
        } else {
            Err(AuthError::Forbidden)
        },
    }
}

/// Lets a request pass only if it carries claims with the role
/// `required_role`. Without claims the request is unauthorized; with another
/// role it is forbidden.
pub fn require_role(claims: Option<&JWTClaims>, required_role: UserRole) -> (r: Result<
    (),
    AuthError,
>)
    ensures
        r == role_check(claims, required_role),
{
    match claims {
        None => Err(AuthError::MissingClaims),
        Some(claims) => if claims.role == required_role {
            Ok(())
        } else {
            Err(AuthError::Forbidden)
        },
    }
}

} // verus!
