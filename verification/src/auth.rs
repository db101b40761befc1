//! Authorization-header handling and claim-set construction for the
//! token-protected endpoints.

use vstd::prelude::*;
use vstd::string::*;

use crate::models::Claims;
use crate::services::sat_add_i64;
use crate::text::has_prefix;

verus! {

/// Why a request could not be authorized.
#[derive(Clone, Copy, Debug, PartialEq, Eq, Structural)]
pub enum AuthError {
    InvalidToken,
    MissingToken,
}

/// Whether an authorization header value carries a bearer token.
pub open spec fn is_bearer(h: Seq<char>) -> bool {
    h.len() >= 7 && h.subrange(0, 7) == "Bearer "@
}

/// The token a bearer header value carries: everything after the prefix.
pub open spec fn bearer_token(h: Seq<char>) -> Seq<char>
    recommends
        is_bearer(h),
{
    h.skip(7)
}

/// Extracts the bearer token from an optional authorization header. A
/// missing header, or one without the bearer prefix, carries no token.
pub fn extract_bearer_token(header: Option<&String>) -> (r: Result<String, AuthError>)
    ensures
        match header {
            None => r == Err::<String, AuthError>(AuthError::MissingToken),
            Some(h) => if is_bearer(h@) {
                r is Ok && r->Ok_0@ == bearer_token(h@)
            } else {
                r == Err::<String, AuthError>(AuthError::MissingToken)
            },
        },
{
    match header {
        None => Err(AuthError::MissingToken),
        Some(h) => {
            proof {
                reveal_strlit("Bearer ");
            }
            if has_prefix(h.as_str(), "Bearer ") {
                let len = h.as_str().unicode_len();
                let token = h.as_str().substring_char(7, len);
                proof {
                    assert(token@ =~= h@.skip(7));
                }
                Ok(token.to_owned())
            } else {
                Err(AuthError::MissingToken)
            }
        },
    }
}

/// Builds the claim set issued to `username` at time `now` (seconds
/// since the Unix epoch): issued at `now`, expiring 24 hours later,
/// clamped to the 64-bit range.
pub fn build_claims(username: &str, now: i64) -> (c: Claims)
    ensures
        c.sub@ == username@,
        c.iat == now,
        c.exp as int == sat_add_i64(now as int, 86400),
{
    let exp: i64 = match now.checked_add(86400) {
        Some(v) => v,
        None => i64::MAX,
    };
    Claims { sub: username.to_owned(), exp, iat: now }
}

} // verus!
