//! Bearer-token authentication.
//!
//! An `Authorization` header resolves to an optional caller identity in
//! two steps: a pure classification of the header text (absent or
//! malformed headers resolve to anonymous, never to an error), and a
//! decision over the login-relation lookup of a well-formed token (an
//! unknown token is reported as `InvalidToken`).

use vstd::prelude::*;

use crate::UserID;
use crate::accounts::LoginTable;
use crate::accounts::has_token;
use crate::errors::ApiError;
use crate::paths::consume_path;
use crate::paths::starts_with_spec;

verus! {

/// The token value `uuid::Uuid::parse_str` reads out of a string, if
/// any; a function of the characters alone.
pub uninterp spec fn uuid_of(s: Seq<char>) -> Option<u128>;

/// Relies on `uuid::Uuid::parse_str` and `Uuid::as_u128`: whether the
/// text is a well-formed token, and its value, depend only on the text.
#[verifier::external_body]
fn parse_uuid(s: &str) -> (r: Option<u128>)
    ensures
        r == uuid_of(s@),
{
    uuid::Uuid::parse_str(s).ok().map(|u| u.as_u128())
}

/// Relies on `uuid::Uuid::new_v4`, `Uuid::to_string` and
/// `Uuid::as_u128`: the value is random, but the hyphenated rendering
/// of a token always parses back to that same token.
#[verifier::external_body]
pub(crate) fn mint_login_token() -> (r: (String, u128))
    ensures
        uuid_of(r.0@) == Some(r.1),
{
    let u = uuid::Uuid::new_v4();
    (u.to_string(), u.as_u128())
}

/// What the header text claims: either no identity at all, or a
/// well-formed bearer token to be looked up.
#[derive(Debug, PartialEq, Eq, Structural, Clone, Copy)]
pub enum TokenClaim {
    /// No header, or one that is not a well-formed bearer credential;
    /// such a request proceeds without an identity.
    Anonymous,
    /// A syntactically valid bearer token.
    Claimed(u128),
}

/// The scheme prefix of a bearer credential.
pub open spec fn bearer_prefix() -> Seq<char> {
    "Bearer "@
}

/// How a raw `Authorization` value classifies: a well-formed bearer
/// credential whose token parses yields its value; everything else is
/// anonymous.
pub open spec fn claim_spec(h: Seq<char>) -> TokenClaim {
    if starts_with_spec(h, bearer_prefix()) {
        match uuid_of(h.subrange(bearer_prefix().len() as int, h.len() as int)) {
            Some(v) => TokenClaim::Claimed(v),
            None => TokenClaim::Anonymous,
        }
    } else {
        TokenClaim::Anonymous
    }
}

/// Whether an optional header value carries no usable bearer token.
pub open spec fn anonymous_header(h: Option<&str>) -> bool {
    match h {
        None => true,
        Some(s) => claim_spec(s@) == TokenClaim::Anonymous,
    }
}

/// Whether the authentication stage answers this header without an
/// error against these sessions: either no token is claimed, or the
/// claimed token has an active session.
pub open spec fn header_resolves(rows: Seq<crate::accounts::LoginRow>, h: Option<&str>) -> bool {
    match h {
        None => true,
        Some(s) => match claim_spec(s@) {
            TokenClaim::Anonymous => true,
            TokenClaim::Claimed(token) => has_token(rows, token),
        },
    }
}

/// Classifies an optional `Authorization` header value.  A missing or
/// malformed header resolves to `Anonymous`: classification itself can
/// never fail.
pub fn classify_authorization(header: Option<&str>) -> (r: TokenClaim)
    ensures
        match header {
            None => r == TokenClaim::Anonymous,
            Some(h) => r == claim_spec(h@),
        },
{
    match header {
        None => TokenClaim::Anonymous,
        Some(h) => {
            match consume_path(h, "Bearer ") {
                None => TokenClaim::Anonymous,
                Some(token_text) => {
                    match parse_uuid(token_text) {
                        None => TokenClaim::Anonymous,
                        Some(v) => TokenClaim::Claimed(v),
                    }
                },
            }
        },
    }
}

/// Decides the authentication outcome from the header classification and, for
/// a claimed token, the login relation's answer for it.  An anonymous
/// request passes through with no identity; a claimed token unknown to
/// the relation is rejected as `InvalidToken`; a known token resolves
/// to its owner.
pub fn auth_outcome(claim: TokenClaim, lookup: Option<i32>) -> (r: Result<
    Option<UserID>,
    ApiError,
>)
    ensures
        r == (match claim {
            TokenClaim::Anonymous => Ok::<Option<UserID>, ApiError>(None),
            TokenClaim::Claimed(_) => match lookup {
                None => Err::<Option<UserID>, ApiError>(ApiError::InvalidToken),
                Some(id) => Ok::<Option<UserID>, ApiError>(Some(UserID(id))),
            },
        }),
{
    match claim {
        TokenClaim::Anonymous => Ok(None),
        TokenClaim::Claimed(_) => match lookup {
            None => Err(ApiError::InvalidToken),
            Some(id) => Ok(Some(UserID(id))),
        },
    }
}

/// The whole authentication stage over the login relation.  A missing
/// or malformed header resolves to no identity, never to an error; a
/// well-formed token absent from the relation is `InvalidToken`; a
/// well-formed token in the relation resolves to its session's owner.
pub fn authenticate(logins: &LoginTable, header: Option<&str>) -> (r: Result<
    Option<UserID>,
    ApiError,
>)
    ensures
        ({
            let claim = match header {
                None => TokenClaim::Anonymous,
                Some(h) => claim_spec(h@),
            };
            match claim {
                TokenClaim::Anonymous => r == Ok::<Option<UserID>, ApiError>(None),
                TokenClaim::Claimed(token) => if has_token(logins.rows@, token) {
                    r matches Ok(lu) && lu matches Some(u) && exists|k: int|
                        0 <= k < logins.rows@.len() && (#[trigger] logins.rows@[k]).token == token
                            && u.0 == logins.rows@[k].user_id
                } else {
                    r == Err::<Option<UserID>, ApiError>(ApiError::InvalidToken)
                },
            }
        }),
{
    let claim = classify_authorization(header);
    let lookup: Option<i32> = match claim {
        TokenClaim::Anonymous => None,
        TokenClaim::Claimed(token) => logins.lookup(token),
    };
    auth_outcome(claim, lookup)
}

} // verus!
