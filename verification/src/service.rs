//! The service composed over its relations: one function from an
//! inbound request — method, path, `Authorization` header, parsed
//! body — to the response, threading the router, the authentication
//! stage, the handlers, and the centralized error mapping together.
//! The database is the in-crate model of the relations; the outside
//! world's two contributions, the clock and the payment provider's
//! answer, come in as arguments.

use vstd::prelude::*;

use crate::accounts::LoginTable;
use crate::accounts::UserTable;
use crate::accounts::login;
use crate::accounts::signup;
use crate::accounts::has_email;
use crate::accounts::has_token;
use crate::accounts::has_user;
use crate::auth::uuid_of;
use crate::numbers::dec_str;
use crate::numbers::numeral_val;
use crate::redirects::owner_infos;
use crate::router::id_segment_wf;
use crate::tiers::has_tier_plan;
use crate::tiers::tier_at;
use crate::auth::TokenClaim;
use crate::auth::anonymous_header;
use crate::auth::header_resolves;
use crate::auth::claim_spec;
use crate::auth::authenticate;
use crate::paths::lemma_distinct_prefixes;
use crate::paths::normalize_spec;
use crate::paths::starts_with_spec;
use crate::router::has_slash;
use crate::router::rest_after;
use crate::router::seg_of;
use crate::router::tail_of;
use crate::checkout::SessionTable;
use crate::checkout::run_checkout;
use crate::errors::ApiError;
use crate::errors::body_spec;
use crate::errors::status_spec;
use crate::numbers::format_i32;
use crate::redirects::RedirectInfo;
use crate::redirects::RedirectTable;
use crate::router::Endpoint;
use crate::router::Method;
use crate::router::RoutePlan;
use crate::router::UserEndpoint;
use crate::router::dispatch_user;
use crate::router::plan_route;
use crate::router::resolve_user;
use crate::tiers::TierCache;
use crate::tiers::TierInfo;
use crate::tiers::TierRow;
use crate::tiers::clone_plan;
use crate::tiers::clone_tier;
use crate::tiers::clone_tiers;

verus! {

/// The service's startup configuration, read once from its settings
/// row and environment.
#[derive(Debug)]
pub struct Settings {
    pub free_visits: i32,
    pub frontend_host: Option<String>,
    pub stripe_secret_key: Option<String>,
    pub stripe_publishable_key: Option<String>,
}

/// The relations the service works over.
#[derive(Debug)]
pub struct Db {
    pub users: UserTable,
    pub logins: LoginTable,
    pub redirects: RedirectTable,
    pub sessions: SessionTable,
    pub tier_rows: Vec<TierRow>,
}

impl Db {
    /// Every relation's own invariant, and unique tier ids.
    pub open spec fn wf(&self) -> bool {
        &&& self.users.wf()
        &&& self.logins.wf()
        &&& self.redirects.wf()
        &&& self.sessions.wf()
        &&& forall|i: int, j: int|
            0 <= i < j < self.tier_rows@.len() ==> self.tier_rows@[i].id != self.tier_rows@[j].id
    }

    /// Empty relations.
    pub fn new() -> (db: Db)
        ensures
            db.wf(),
            db.users.rows@.len() == 0,
            db.logins.rows@.len() == 0,
            db.redirects.rows@.len() == 0,
            db.sessions.rows@.len() == 0,
            db.tier_rows@.len() == 0,
            db.users.next_id == 1,
            db.redirects.next_id == 1,
            db.sessions.next_id == 1,
    {
        Db {
            users: UserTable::new(),
            logins: LoginTable::new(),
            redirects: RedirectTable::new(),
            sessions: SessionTable::new(),
            tier_rows: Vec::new(),
        }
    }
}

/// A request body, already parsed out of its JSON; `Invalid` stands
/// for a body the parse rejected.
#[derive(Debug)]
pub enum RequestBody {
    /// No body came, or none is expected.
    Empty,
    /// Signup and login both carry an email and a password.
    Credentials { email: String, password: String },
    /// A redirect to create.
    NewRedirect { host: String, destination: String },
    /// A checkout to start, for one tier.
    StartCheckout { subscription_tier: i32 },
    /// A body that did not parse as the endpoint's JSON.
    Invalid,
}

/// A response body, as structured data; the transport serializes it.
#[derive(Debug)]
pub enum Payload {
    /// A bare text body: error texts, a created id, a login token.
    Text(String),
    /// The user's id document.
    UserDoc { id: i32 },
    /// The caller's redirects.
    RedirectList(Vec<RedirectInfo>),
    /// One cached tier.
    Tier(TierInfo),
    /// The whole cached tier snapshot.
    TierList(Vec<TierInfo>),
    /// The public settings document.
    SettingsDoc {
        free_visits: i32,
        redirect_host: Option<String>,
        stripe_publishable_key: Option<String>,
    },
    /// A started checkout's provider session id.
    CheckoutDoc { stripe_session: String },
}

/// A response: a status code and a body.
#[derive(Debug)]
pub struct ApiResponse {
    pub status: u16,
    pub body: Payload,
}

/// The centralized error rendering: the error's fixed status, its
/// fixed text as the body.
pub fn error_response(e: &ApiError) -> (r: ApiResponse)
    ensures
        r.status == status_spec(e),
        r.body matches Payload::Text(t) && t@ == body_spec(e),
{
    ApiResponse { status: e.status(), body: Payload::Text(e.body_text()) }
}

fn invalid_body_response() -> (r: ApiResponse)
    ensures
        r.status == 500,
        r.body matches Payload::Text(t) && t@ == "Internal Server Error"@,
{
    error_response(&ApiError::internal(String::from_str("request body rejected")))
}

/// One request, start to finish: route, authenticate, resolve, dispatch,
/// handle, and map errors centrally.  The clock and the provider's
/// answer are the request's outside inputs.
pub fn handle(
    db: &mut Db,
    settings: &Settings,
    cache: &TierCache,
    method: Method,
    path: &str,
    authorization: Option<&str>,
    body: RequestBody,
    now: i64,
    provider: Result<String, String>,
) -> (r: ApiResponse)
    requires
        old(db).wf(),
        old(db).users.next_id < i32::MAX,
        old(db).redirects.next_id < i32::MAX,
        old(db).sessions.next_id < i32::MAX,
    ensures
        final(db).wf(),
        final(db).tier_rows@ == old(db).tier_rows@,
        ({
            let p = normalize_spec(path@);
            &&& (!starts_with_spec(p, "logins/"@) && !starts_with_spec(p, "users/"@)
                && !starts_with_spec(p, "subscription_tiers/"@) && !starts_with_spec(
                p,
                "settings/"@,
            )) ==> ({
                &&& r.status == 404
                &&& r.body matches Payload::Text(t) && t@ == "Not Found"@
                &&& *final(db) == *old(db)
            })
            &&& (starts_with_spec(p, "settings/"@) && rest_after(p, "settings/"@).len() == 0
                && method == Method::Get) ==> ({
                &&& r.status == 200
                &&& r.body matches Payload::SettingsDoc {
                    free_visits,
                    redirect_host,
                    stripe_publishable_key,
                } && free_visits == settings.free_visits && redirect_host == settings.frontend_host
                    && stripe_publishable_key == settings.stripe_publishable_key
                &&& *final(db) == *old(db)
            })
            &&& (starts_with_spec(p, "users/"@) && ({
                let rest = rest_after(p, "users/"@);
                rest.len() > 0 && has_slash(rest) && seg_of(rest) == "~me"@
            }) && anonymous_header(authorization)) ==> ({
                &&& r.status == 401
                &&& r.body matches Payload::Text(t) && t@ == "Login is required for '~me' paths"@
                &&& *final(db) == *old(db)
            })
            &&& ({
                let taken = (body matches RequestBody::Credentials { email, password } && has_email(
                    old(db).users.rows@,
                    email@,
                ));
                (starts_with_spec(p, "users/"@) && rest_after(p, "users/"@).len() == 0 && method
                    == Method::Post && taken) ==> ({
                    &&& r.status == 500
                    &&& r.body matches Payload::Text(t) && t@ == "Internal Server Error"@
                    &&& final(db).users.rows@ == old(db).users.rows@
                })
            })
            &&& ({
                let unknown = (body matches RequestBody::Credentials { email, password }
                    && !has_email(old(db).users.rows@, email@));
                (starts_with_spec(p, "logins/"@) && rest_after(p, "logins/"@).len() == 0 && method
                    == Method::Post && unknown) ==> ({
                    &&& r.status == 400
                    &&& r.body matches Payload::Text(t) && t@
                        == "No such user with that email address"@
                    &&& final(db).logins.rows@ == old(db).logins.rows@
                    &&& final(db).users.rows@ == old(db).users.rows@
                })
            })
            &&& (starts_with_spec(p, "subscription_tiers/"@) && rest_after(
                p,
                "subscription_tiers/"@,
            ).len() == 0 && method == Method::Get) ==> ({
                &&& r.status == 200
                &&& r.body matches Payload::TierList(ts) && ts@ == cache.tiers@
                &&& *final(db) == *old(db)
            })
            &&& ({
                match body {
                    RequestBody::Credentials { email, password } => (starts_with_spec(
                        p,
                        "users/"@,
                    ) && rest_after(p, "users/"@).len() == 0 && method == Method::Post
                        && !has_email(old(db).users.rows@, email@)) ==> ({
                        ||| ({
                            &&& r.status == 200
                            &&& r.body matches Payload::Text(t) && t@ == dec_str(
                                old(db).users.next_id as int,
                            )
                            &&& final(db).users.rows@.len() == old(db).users.rows@.len() + 1
                            &&& final(db).users.rows@.last().email@ == email@
                        })
                        ||| ({
                            &&& r.status == 500
                            &&& r.body matches Payload::Text(t) && t@ == "Internal Server Error"@
                            &&& final(db).users.rows@ == old(db).users.rows@
                        })
                    }),
                    _ => true,
                }
            })
            &&& ({
                match body {
                    RequestBody::Credentials { email, password } => (starts_with_spec(
                        p,
                        "logins/"@,
                    ) && rest_after(p, "logins/"@).len() == 0 && method == Method::Post
                        && has_email(old(db).users.rows@, email@)) ==> ({
                        ||| ({
                            &&& r.status == 200
                            &&& r.body matches Payload::Text(tok) && uuid_of(tok@) is Some
                            &&& final(db).logins.rows@.len() == old(db).logins.rows@.len() + 1
                        })
                        ||| ({
                            &&& r.status == 401
                            &&& r.body matches Payload::Text(t) && t@ == "Incorrect password"@
                            &&& final(db).logins.rows@ == old(db).logins.rows@
                        })
                        ||| ({
                            &&& r.status == 500
                            &&& r.body matches Payload::Text(t) && t@ == "Internal Server Error"@
                            &&& final(db).logins.rows@ == old(db).logins.rows@
                        })
                    }),
                    _ => true,
                }
            })
            &&& ({
                let rest = rest_after(p, "users/"@);
                let seg = seg_of(rest);
                (starts_with_spec(p, "users/"@) && rest.len() > 0 && has_slash(rest) && (seg
                    == "~me"@ || id_segment_wf(seg)) && !header_resolves(
                    old(db).logins.rows@,
                    authorization,
                )) ==> ({
                    &&& r.status == 400
                    &&& r.body matches Payload::Text(t) && t@
                        == "Unrecognized authentication token"@
                    &&& *final(db) == *old(db)
                })
            })
            &&& ({
                let rest = rest_after(p, "users/"@);
                let seg = seg_of(rest);
                let sub = tail_of(rest);
                (starts_with_spec(p, "users/"@) && rest.len() > 0 && has_slash(rest) && !(seg
                    == "~me"@) && id_segment_wf(seg) && starts_with_spec(
                    sub,
                    "subscription_tier/"@,
                ) && rest_after(sub, "subscription_tier/"@).len() == 0 && method == Method::Get
                    && header_resolves(old(db).logins.rows@, authorization)) ==> ({
                    let uid = numeral_val(seg) as i32;
                    if !has_user(old(db).users.rows@, uid) {
                        &&& r.status == 404
                        &&& r.body matches Payload::Text(t) && t@ == "No such user"@
                        &&& *final(db) == *old(db)
                    } else {
                        forall|k: int|
                            0 <= k < old(db).users.rows@.len() && (#[trigger] old(db).users.rows@[k]).id == uid ==> ({
                                let tier = old(db).users.rows@[k].tier;
                                if forall|j: int|
                                    0 <= j < cache.tiers@.len() ==> (#[trigger] cache.tiers@[j]).id
                                        != tier {
                                    r.status == 500 && (r.body matches Payload::Text(t) && t@
                                        == "Internal Server Error"@) && *final(db) == *old(db)
                                } else {
                                    r.status == 200 && (r.body matches Payload::Tier(ti) && exists|
                                        j: int,
                                    |
                                        #[trigger] tier_at(cache.tiers@, tier, j) && ti
                                            == cache.tiers@[j]) && *final(db) == *old(db)
                                }
                            })
                    }
                })
            })
            &&& ({
                let rest = rest_after(p, "users/"@);
                let sub = tail_of(rest);
                match authorization {
                    Some(h) => match claim_spec(h@) {
                        TokenClaim::Claimed(tok) => ({
                            let me_scoped = starts_with_spec(p, "users/"@) && rest.len() > 0
                                && has_slash(rest) && seg_of(rest) == "~me"@ && has_token(
                                old(db).logins.rows@,
                                tok,
                            );
                            &&& (me_scoped && sub.len() == 0 && method == Method::Get) ==> ({
                                &&& r.status == 200
                                &&& r.body matches Payload::UserDoc { id } && exists|k: int|
                                    0 <= k < old(db).logins.rows@.len() && (#[trigger] old(db).logins.rows@[k]).token
                                        == tok && id == old(db).logins.rows@[k].user_id
                                &&& *final(db) == *old(db)
                            })
                            &&& (me_scoped && starts_with_spec(sub, "subscription_tier/"@)
                                && rest_after(sub, "subscription_tier/"@).len() == 0 && method
                                == Method::Get) ==> (forall|k: int|
                                0 <= k < old(db).logins.rows@.len() && (#[trigger] old(db).logins.rows@[k]).token
                                    == tok ==> ({
                                    let uid = old(db).logins.rows@[k].user_id;
                                    if !has_user(old(db).users.rows@, uid) {
                                        r.status == 404 && (r.body matches Payload::Text(t) && t@
                                            == "No such user"@) && *final(db) == *old(db)
                                    } else {
                                        forall|k2: int|
                                            0 <= k2 < old(db).users.rows@.len() && (#[trigger] old(db).users.rows@[k2]).id
                                                == uid ==> ({
                                                let tier = old(db).users.rows@[k2].tier;
                                                if forall|j: int|
                                                    0 <= j < cache.tiers@.len() ==> (#[trigger] cache.tiers@[j]).id
                                                        != tier {
                                                    r.status == 500 && (r.body matches Payload::Text(t)
                                                        && t@ == "Internal Server Error"@) && *final(db)
                                                        == *old(db)
                                                } else {
                                                    r.status == 200 && (r.body matches Payload::Tier(ti)
                                                        && exists|j: int|
                                                        #[trigger] tier_at(cache.tiers@, tier, j)
                                                            && ti == cache.tiers@[j]) && *final(db)
                                                        == *old(db)
                                                }
                                            })
                                    }
                                }))
                            &&& (me_scoped && starts_with_spec(sub, "redirects/"@) && rest_after(
                                sub,
                                "redirects/"@,
                            ).len() == 0 && method == Method::Get) ==> ({
                                &&& r.status == 200
                                &&& r.body matches Payload::RedirectList(list) && exists|k: int|
                                    0 <= k < old(db).logins.rows@.len() && (#[trigger] old(db).logins.rows@[k]).token
                                        == tok && list@ == owner_infos(
                                        old(db).redirects.rows@,
                                        old(db).logins.rows@[k].user_id,
                                    )
                                &&& *final(db) == *old(db)
                            })
                            &&& ({
                                match body {
                                    RequestBody::NewRedirect { host, destination } => (me_scoped
                                        && starts_with_spec(sub, "redirects/"@) && rest_after(
                                        sub,
                                        "redirects/"@,
                                    ).len() == 0 && method == Method::Post) ==> ({
                                        &&& r.status == 200
                                        &&& r.body matches Payload::Text(t) && t@ == dec_str(
                                            old(db).redirects.next_id as int,
                                        )
                                        &&& final(db).redirects.rows@.len() == old(db).redirects.rows@.len() + 1
                                        &&& final(db).redirects.rows@.last().host@ == host@
                                        &&& final(db).redirects.rows@.last().destination@
                                            == destination@
                                        &&& exists|k: int|
                                            0 <= k < old(db).logins.rows@.len() && (#[trigger] old(db).logins.rows@[k]).token
                                                == tok && final(db).redirects.rows@.last().owner
                                                == old(db).logins.rows@[k].user_id
                                    }),
                                    _ => true,
                                }
                            })
                            &&& ({
                                match body {
                                    RequestBody::StartCheckout { subscription_tier } => (me_scoped
                                        && starts_with_spec(sub, "checkout_sessions/"@)
                                        && rest_after(sub, "checkout_sessions/"@).len() == 0
                                        && method == Method::Post) ==> ({
                                        &&& (!has_tier_plan(
                                            old(db).tier_rows@,
                                            subscription_tier,
                                        )) ==> (r.status == 400 && (r.body matches Payload::Text(t)
                                            && t@ == "No such subscription tier"@) && final(db).sessions.rows@
                                            == old(db).sessions.rows@)
                                        &&& (r.status == 200) ==> ({
                                            match provider {
                                                Ok(sid) => {
                                                    &&& r.body matches Payload::CheckoutDoc {
                                                        stripe_session,
                                                    } && stripe_session@ == sid@
                                                    &&& final(db).sessions.rows@.len() == old(db).sessions.rows@.len()
                                                        + 1
                                                    &&& final(db).sessions.rows@.last().stripe_id matches
                                                    Some(s2) && s2@ == sid@
                                                },
                                                Err(_) => false,
                                            }
                                        })
                                    }),
                                    _ => true,
                                }
                            })
                        }),
                        TokenClaim::Anonymous => true,
                    },
                    None => true,
                }
            })
        }),
{
    proof {
        reveal_strlit("logins/");
        reveal_strlit("users/");
        reveal_strlit("subscription_tiers/");
        reveal_strlit("settings/");
        let p = normalize_spec(path@);
        lemma_distinct_prefixes(p, "users/"@, "logins/"@, 0);
        lemma_distinct_prefixes(p, "settings/"@, "logins/"@, 0);
        lemma_distinct_prefixes(p, "settings/"@, "users/"@, 0);
        lemma_distinct_prefixes(p, "settings/"@, "subscription_tiers/"@, 1);
        lemma_distinct_prefixes(p, "subscription_tiers/"@, "logins/"@, 0);
        lemma_distinct_prefixes(p, "subscription_tiers/"@, "users/"@, 0);
        reveal_strlit("redirects/");
        reveal_strlit("subscription_tier/");
        reveal_strlit("checkout_sessions/");
        let sub = tail_of(rest_after(p, "users/"@));
        lemma_distinct_prefixes(sub, "subscription_tier/"@, "redirects/"@, 0);
        lemma_distinct_prefixes(sub, "checkout_sessions/"@, "redirects/"@, 0);
        lemma_distinct_prefixes(sub, "checkout_sessions/"@, "subscription_tier/"@, 0);
    }
    match plan_route(&method, path) {
        RoutePlan::Rejected(e) => error_response(&e),
        RoutePlan::Immediate(ep) => match ep {
            Endpoint::CreateUser => match body {
                RequestBody::Credentials { email, password } => {
                    match signup(&mut db.users, email, password.as_str()) {
                        Ok(id) => ApiResponse { status: 200, body: Payload::Text(format_i32(id)) },
                        Err(e) => error_response(&e),
                    }
                },
                _ => invalid_body_response(),
            },
            Endpoint::CreateLogin => match body {
                RequestBody::Credentials { email, password } => {
                    match login(
                        &db.users,
                        &mut db.logins,
                        email.as_str(),
                        password.as_str(),
                        now,
                    ) {
                        Ok(token) => ApiResponse { status: 200, body: Payload::Text(token) },
                        Err(e) => error_response(&e),
                    }
                },
                _ => invalid_body_response(),
            },
            Endpoint::ListTiers => ApiResponse {
                status: 200,
                body: Payload::TierList(clone_tiers(&cache.tiers)),
            },
            Endpoint::GetSettings => ApiResponse {
                status: 200,
                body: Payload::SettingsDoc {
                    free_visits: settings.free_visits,
                    redirect_host: clone_plan(&settings.frontend_host),
                    stripe_publishable_key: clone_plan(&settings.stripe_publishable_key),
                },
            },
        },
        RoutePlan::UserScoped { target, rest } => {
            let login_user = match authenticate(&db.logins, authorization) {
                Err(e) => {
                    return error_response(&e);
                },
                Ok(lu) => lu,
            };
            let (user, is_self) = match resolve_user(target, login_user) {
                Err(e) => {
                    return error_response(&e);
                },
                Ok(p) => p,
            };
            let ep = match dispatch_user(&method, rest.as_str(), user, is_self) {
                Err(e) => {
                    return error_response(&e);
                },
                Ok(ep) => ep,
            };
            match ep {
                UserEndpoint::GetSelf { user } => ApiResponse {
                    status: 200,
                    body: Payload::UserDoc { id: user.to_raw() },
                },
                UserEndpoint::ListRedirects { user } => ApiResponse {
                    status: 200,
                    body: Payload::RedirectList(db.redirects.list_by_owner(user.to_raw())),
                },
                UserEndpoint::CreateRedirect { user } => match body {
                    RequestBody::NewRedirect { host, destination } => {
                        let id = db.redirects.create(host, destination, user.to_raw());
                        ApiResponse { status: 200, body: Payload::Text(format_i32(id)) }
                    },
                    _ => invalid_body_response(),
                },
                UserEndpoint::GetSubscriptionTier { user } => {
                    match db.users.find_by_id(user.to_raw()) {
                        None => error_response(
                            &ApiError::MissingResource(String::from_str("No such user")),
                        ),
                        Some(row) => {
                            let tier = row.tier;
                            match cache.find(tier) {
                                Some(t) => ApiResponse {
                                    status: 200,
                                    body: Payload::Tier(clone_tier(t)),
                                },
                                None => error_response(
                                    &ApiError::internal(String::from_str("No such tier found")),
                                ),
                            }
                        },
                    }
                },
                UserEndpoint::StartCheckout { user } => match body {
                    RequestBody::StartCheckout { subscription_tier } => {
                        let (outcome, _request) = run_checkout(
                            &db.tier_rows,
                            &db.users,
                            &mut db.sessions,
                            user.to_raw(),
                            subscription_tier,
                            clone_plan(&settings.stripe_secret_key),
                            clone_plan(&settings.frontend_host),
                            now,
                            provider,
                        );
                        match outcome {
                            Ok(sid) => ApiResponse {
                                status: 200,
                                body: Payload::CheckoutDoc { stripe_session: sid },
                            },
                            Err(e) => error_response(&e),
                        }
                    },
                    _ => invalid_body_response(),
                },
            }
        },
    }
}

} // verus!
