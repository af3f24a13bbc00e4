//! The hierarchical path/method dispatcher.
//!
//! A request path is normalized, then matched one `/`-delimited
//! segment (or fixed literal prefix) at a time against the registered
//! sub-resources.  An unmatched path is `NotFound`; a matched path with
//! an unregistered method is `MethodNotAllowed`.  The reserved segment
//! `~me` stands for the authenticated caller: routes under `users/`
//! therefore first authenticate the caller, after which `~me` is
//! resolved (`LoginRequired` without a caller) and an `is_self` flag is
//! computed for the self-only endpoints.

use vstd::prelude::*;

use crate::UserID;
use crate::errors::ApiError;
use crate::numbers::numeral_val;
use crate::numbers::numeral_wf;
use crate::numbers::parse_i32;
use crate::paths::consume_path;
use crate::paths::consume_path_segment;
use crate::paths::normalize_path;
use crate::paths::normalize_spec;
use crate::paths::starts_with_spec;
use crate::paths::str_eq;

verus! {

/// The request methods the gateway distinguishes.
#[derive(Debug, PartialEq, Eq, Structural, Clone, Copy)]
pub enum Method {
    Get,
    Post,
    Patch,
    Other,
}

/// A user-path segment: an explicit id, or the reserved `~me`.
#[derive(Debug, PartialEq, Eq, Structural, Clone, Copy)]
pub enum UserIDOrMe {
    ID(UserID),
    Me,
}

/// An endpoint reachable without authenticating the caller.
#[derive(Debug, PartialEq, Eq, Structural, Clone, Copy)]
pub enum Endpoint {
    /// `POST logins/`: exchange credentials for a bearer token.
    CreateLogin,
    /// `POST users/`: sign a new account up.
    CreateUser,
    /// `GET subscription_tiers/`: the current tier cache snapshot.
    ListTiers,
    /// `GET settings/`: the public service settings.
    GetSettings,
}

/// What the first routing stage decides before any I/O happens.
#[derive(Debug)]
pub enum RoutePlan {
    /// A leaf endpoint that needs no caller identity.
    Immediate(Endpoint),
    /// A route under `users/`: authentication runs, then `dispatch_user`.
    UserScoped { target: UserIDOrMe, rest: String },
    /// The path or method already decides the response.
    Rejected(ApiError),
}

/// An endpoint under `users/{id|~me}/`, with its resolved user.
#[derive(Debug, PartialEq, Eq, Structural, Clone, Copy)]
pub enum UserEndpoint {
    /// `GET users/{u}/`: the user's id document.
    GetSelf { user: UserID },
    /// `GET users/{u}/redirects/`: the caller's own redirects.
    ListRedirects { user: UserID },
    /// `POST users/{u}/redirects/`: create a redirect for the caller.
    CreateRedirect { user: UserID },
    /// `GET users/{u}/subscription_tier/`: the user's cached tier.
    GetSubscriptionTier { user: UserID },
    /// `POST users/{u}/checkout_sessions/`: start the checkout saga.
    StartCheckout { user: UserID },
}

/// The suffix of `p` after a matched prefix.
pub open spec fn rest_after(p: Seq<char>, prefix: Seq<char>) -> Seq<char> {
    p.subrange(prefix.len() as int, p.len() as int)
}

/// `k` is the first `/` in `s`.
pub open spec fn slash_at(s: Seq<char>, k: int) -> bool {
    0 <= k < s.len() && s[k] == '/' && forall|j: int| 0 <= j < k ==> s[j] != '/'
}

/// Some `/` occurs in `s`.
pub open spec fn has_slash(s: Seq<char>) -> bool {
    exists|k: int| slash_at(s, k)
}

/// The position of the first `/` in `s`.
pub open spec fn first_slash(s: Seq<char>) -> int {
    choose|k: int| slash_at(s, k)
}

/// The leading segment of `s`, up to its first `/`.
pub open spec fn seg_of(s: Seq<char>) -> Seq<char> {
    s.subrange(0, first_slash(s))
}

/// What follows the first `/` of `s`.
pub open spec fn tail_of(s: Seq<char>) -> Seq<char> {
    s.subrange(first_slash(s) + 1, s.len() as int)
}

/// The first `/` is unique, so any witness pins `first_slash` down.
pub proof fn lemma_first_slash_unique(s: Seq<char>, k: int)
    requires
        slash_at(s, k),
    ensures
        has_slash(s),
        first_slash(s) == k,
{
    assert(has_slash(s));
    let k2 = first_slash(s);
    assert(slash_at(s, k2));
    if k < k2 {
        assert(s[k] == '/');
        assert(false);
    }
    if k2 < k {
        assert(s[k2] == '/');
        assert(false);
    }
}

/// The numeral a user-id segment must be: a well-formed signed decimal
/// whose value fits the id column.
pub open spec fn id_segment_wf(seg: Seq<char>) -> bool {
    numeral_wf(seg) && -0x8000_0000 <= numeral_val(seg) < 0x8000_0000
}

/// What `plan_route` must decide for a method and a raw path.
pub open spec fn plan_route_spec_holds(m: Method, raw: Seq<char>, r: RoutePlan) -> bool {
    let p = normalize_spec(raw);
    if starts_with_spec(p, "logins/"@) {
        let rest = rest_after(p, "logins/"@);
        if rest.len() == 0 {
            if m == Method::Post {
                r == RoutePlan::Immediate(Endpoint::CreateLogin)
            } else {
                r == RoutePlan::Rejected(ApiError::MethodNotAllowed)
            }
        } else {
            r == RoutePlan::Rejected(ApiError::NotFound)
        }
    } else if starts_with_spec(p, "users/"@) {
        let rest = rest_after(p, "users/"@);
        if rest.len() == 0 {
            if m == Method::Post {
                r == RoutePlan::Immediate(Endpoint::CreateUser)
            } else {
                r == RoutePlan::Rejected(ApiError::MethodNotAllowed)
            }
        } else if has_slash(rest) {
            let seg = seg_of(rest);
            let tail = tail_of(rest);
            if seg == "~me"@ {
                r matches RoutePlan::UserScoped { target, rest: rr } && target == UserIDOrMe::Me
                    && rr@ == tail
            } else if id_segment_wf(seg) {
                r matches RoutePlan::UserScoped { target, rest: rr } && target matches
                    UserIDOrMe::ID(u) && u.0 == numeral_val(seg) && rr@ == tail
            } else {
                r matches RoutePlan::Rejected(ApiError::BadRequest(msg)) && msg@
                    == "Invalid user ID segment. Must be an integer or '~me'"@
            }
        } else {
            r == RoutePlan::Rejected(ApiError::NotFound)
        }
    } else if starts_with_spec(p, "subscription_tiers/"@) {
        let rest = rest_after(p, "subscription_tiers/"@);
        if rest.len() == 0 {
            if m == Method::Get {
                r == RoutePlan::Immediate(Endpoint::ListTiers)
            } else {
                r == RoutePlan::Rejected(ApiError::MethodNotAllowed)
            }
        } else {
            r == RoutePlan::Rejected(ApiError::NotFound)
        }
    } else if starts_with_spec(p, "settings/"@) {
        let rest = rest_after(p, "settings/"@);
        if rest.len() == 0 {
            if m == Method::Get {
                r == RoutePlan::Immediate(Endpoint::GetSettings)
            } else {
                r == RoutePlan::Rejected(ApiError::MethodNotAllowed)
            }
        } else {
            r == RoutePlan::Rejected(ApiError::NotFound)
        }
    } else {
        r == RoutePlan::Rejected(ApiError::NotFound)
    }
}

/// First routing stage: normalizes the raw path and matches it against
/// the registered top-level resources.
pub fn plan_route(method: &Method, raw_path: &str) -> (r: RoutePlan)
    ensures
        plan_route_spec_holds(*method, raw_path@, r),
{
    let normalized = normalize_path(raw_path);
    let path = normalized.as_str();
    if let Some(rest) = consume_path(path, "logins/") {
        if rest.unicode_len() == 0 {
            match method {
                Method::Post => RoutePlan::Immediate(Endpoint::CreateLogin),
                _ => RoutePlan::Rejected(ApiError::MethodNotAllowed),
            }
        } else {
            RoutePlan::Rejected(ApiError::NotFound)
        }
    } else if let Some(rest) = consume_path(path, "users/") {
        if rest.unicode_len() == 0 {
            match method {
                Method::Post => RoutePlan::Immediate(Endpoint::CreateUser),
                _ => RoutePlan::Rejected(ApiError::MethodNotAllowed),
            }
        } else if let Some((seg, tail)) = consume_path_segment(rest) {
            proof {
                lemma_first_slash_unique(rest@, seg@.len() as int);
            }
            if str_eq(seg, "~me") {
                RoutePlan::UserScoped { target: UserIDOrMe::Me, rest: String::from_str(tail) }
            } else {
                match parse_i32(seg) {
                    Some(n) => RoutePlan::UserScoped {
                        target: UserIDOrMe::ID(UserID(n)),
                        rest: String::from_str(tail),
                    },
                    None => RoutePlan::Rejected(
                        ApiError::BadRequest(
                            String::from_str("Invalid user ID segment. Must be an integer or '~me'"),
                        ),
                    ),
                }
            }
        } else {
            proof {
                if has_slash(rest@) {
                    let k = first_slash(rest@);
                    assert(slash_at(rest@, k));
                }
            }
            RoutePlan::Rejected(ApiError::NotFound)
        }
    } else if let Some(rest) = consume_path(path, "subscription_tiers/") {
        if rest.unicode_len() == 0 {
            match method {
                Method::Get => RoutePlan::Immediate(Endpoint::ListTiers),
                _ => RoutePlan::Rejected(ApiError::MethodNotAllowed),
            }
        } else {
            RoutePlan::Rejected(ApiError::NotFound)
        }
    } else if let Some(rest) = consume_path(path, "settings/") {
        if rest.unicode_len() == 0 {
            match method {
                Method::Get => RoutePlan::Immediate(Endpoint::GetSettings),
                _ => RoutePlan::Rejected(ApiError::MethodNotAllowed),
            }
        } else {
            RoutePlan::Rejected(ApiError::NotFound)
        }
    } else {
        RoutePlan::Rejected(ApiError::NotFound)
    }
}

/// Resolves a user-path segment against the authentication outcome.  `~me`
/// without a caller is `LoginRequired`; `~me` with one resolves to the
/// caller with `is_self` true; an explicit id resolves to that id, self
/// exactly when it names the caller.
pub fn resolve_user(target: UserIDOrMe, login: Option<UserID>) -> (r: Result<
    (UserID, bool),
    ApiError,
>)
    ensures
        r == (match target {
            UserIDOrMe::ID(id) => Ok::<(UserID, bool), ApiError>((id, login == Some(id))),
            UserIDOrMe::Me => match login {
                Some(u) => Ok::<(UserID, bool), ApiError>((u, true)),
                None => Err::<(UserID, bool), ApiError>(ApiError::LoginRequired),
            },
        }),
{
    match target {
        UserIDOrMe::ID(id) => {
            let is_self = match login {
                Some(u) => u.0 == id.0,
                None => false,
            };
            Ok((id, is_self))
        },
        UserIDOrMe::Me => match login {
            Some(u) => Ok((u, true)),
            None => Err(ApiError::LoginRequired),
        },
    }
}

/// Guards a self-only endpoint: anything but the caller's own account
/// is turned away.
pub fn ensure_me(is_me: bool) -> (r: Result<(), ApiError>)
    ensures
        r == (if is_me {
            Ok::<(), ApiError>(())
        } else {
            Err::<(), ApiError>(ApiError::OnlyForMe)
        }),
{
    if is_me {
        Ok(())
    } else {
        Err(ApiError::OnlyForMe)
    }
}

/// What `dispatch_user` must decide for the path below a user segment.
pub open spec fn dispatch_user_spec_holds(
    m: Method,
    rest: Seq<char>,
    user: UserID,
    is_self: bool,
    r: Result<UserEndpoint, ApiError>,
) -> bool {
    if rest.len() == 0 {
        if m == Method::Get {
            r == Ok::<UserEndpoint, ApiError>(UserEndpoint::GetSelf { user })
        } else {
            r == Err::<UserEndpoint, ApiError>(ApiError::MethodNotAllowed)
        }
    } else if starts_with_spec(rest, "redirects/"@) {
        if rest_after(rest, "redirects/"@).len() == 0 {
            if m == Method::Get {
                r == (if is_self {
                    Ok::<UserEndpoint, ApiError>(UserEndpoint::ListRedirects { user })
                } else {
                    Err::<UserEndpoint, ApiError>(ApiError::OnlyForMe)
                })
            } else if m == Method::Post {
                r == (if is_self {
                    Ok::<UserEndpoint, ApiError>(UserEndpoint::CreateRedirect { user })
                } else {
                    Err::<UserEndpoint, ApiError>(ApiError::OnlyForMe)
                })
            } else {
                r == Err::<UserEndpoint, ApiError>(ApiError::MethodNotAllowed)
            }
        } else {
            r == Err::<UserEndpoint, ApiError>(ApiError::NotFound)
        }
    } else if starts_with_spec(rest, "subscription_tier/"@) {
        if rest_after(rest, "subscription_tier/"@).len() == 0 {
            if m == Method::Get {
                r == Ok::<UserEndpoint, ApiError>(UserEndpoint::GetSubscriptionTier { user })
            } else {
                r == Err::<UserEndpoint, ApiError>(ApiError::MethodNotAllowed)
            }
        } else {
            r == Err::<UserEndpoint, ApiError>(ApiError::NotFound)
        }
    } else if starts_with_spec(rest, "checkout_sessions/"@) {
        if rest_after(rest, "checkout_sessions/"@).len() == 0 {
            if m == Method::Post {
                r == (if is_self {
                    Ok::<UserEndpoint, ApiError>(UserEndpoint::StartCheckout { user })
                } else {
                    Err::<UserEndpoint, ApiError>(ApiError::OnlyForMe)
                })
            } else {
                r == Err::<UserEndpoint, ApiError>(ApiError::MethodNotAllowed)
            }
        } else {
            r == Err::<UserEndpoint, ApiError>(ApiError::NotFound)
        }
    } else {
        r == Err::<UserEndpoint, ApiError>(ApiError::NotFound)
    }
}

/// Second routing stage, after authentication has run and the user segment is
/// resolved: dispatches the remaining path and the method to a user
/// endpoint, holding the self-only endpoints to `is_self`.
pub fn dispatch_user(method: &Method, rest: &str, user: UserID, is_self: bool) -> (r: Result<
    UserEndpoint,
    ApiError,
>)
    ensures
        dispatch_user_spec_holds(*method, rest@, user, is_self, r),
{
    if rest.unicode_len() == 0 {
        return match method {
            Method::Get => Ok(UserEndpoint::GetSelf { user }),
            _ => Err(ApiError::MethodNotAllowed),
        };
    }
    if let Some(sub) = consume_path(rest, "redirects/") {
        if sub.unicode_len() == 0 {
            return match method {
                Method::Get => {
                    ensure_me(is_self)?;
                    Ok(UserEndpoint::ListRedirects { user })
                },
                Method::Post => {
                    ensure_me(is_self)?;
                    Ok(UserEndpoint::CreateRedirect { user })
                },
                _ => Err(ApiError::MethodNotAllowed),
            };
        }
        return Err(ApiError::NotFound);
    }
    if let Some(sub) = consume_path(rest, "subscription_tier/") {
        if sub.unicode_len() == 0 {
            return match method {
                Method::Get => Ok(UserEndpoint::GetSubscriptionTier { user }),
                _ => Err(ApiError::MethodNotAllowed),
            };
        }
        return Err(ApiError::NotFound);
    }
    if let Some(sub) = consume_path(rest, "checkout_sessions/") {
        if sub.unicode_len() == 0 {
            return match method {
                Method::Post => {
                    ensure_me(is_self)?;
                    Ok(UserEndpoint::StartCheckout { user })
                },
                _ => Err(ApiError::MethodNotAllowed),
            };
        }
        return Err(ApiError::NotFound);
    }
    Err(ApiError::NotFound)
}

} // verus!
