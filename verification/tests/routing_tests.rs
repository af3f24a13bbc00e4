use redirect_gateway::UserID;
use redirect_gateway::errors::ApiError;
use redirect_gateway::numbers::{format_i32, format_u32, parse_i32};
use redirect_gateway::paths::{consume_path, consume_path_segment, normalize_path, str_eq};
use redirect_gateway::router::{
    Endpoint, Method, RoutePlan, UserEndpoint, UserIDOrMe, dispatch_user, ensure_me, plan_route,
    resolve_user,
};

#[test]
fn consume_path_strips_a_matching_prefix() {
    assert_eq!(consume_path("users/5/redirects/", "users/"), Some("5/redirects/"));
    assert_eq!(consume_path("users/", "users/"), Some(""));
    assert_eq!(consume_path("user/", "users/"), None);
    assert_eq!(consume_path("", "users/"), None);
}

#[test]
fn consume_path_segment_splits_at_the_first_slash() {
    assert_eq!(consume_path_segment("5/redirects/"), Some(("5", "redirects/")));
    assert_eq!(consume_path_segment("a/b/c"), Some(("a", "b/c")));
    assert_eq!(consume_path_segment("/x"), Some(("", "x")));
    assert_eq!(consume_path_segment("nope"), None);
}

#[test]
fn normalize_path_appends_and_strips_slashes() {
    assert_eq!(normalize_path("/users"), "users/");
    assert_eq!(normalize_path("/users/"), "users/");
    assert_eq!(normalize_path("/users/5/redirects"), "users/5/redirects/");
    assert_eq!(normalize_path(""), "");
    assert_eq!(normalize_path("/"), "");
}

#[test]
fn str_eq_compares_contents() {
    assert!(str_eq("~me", "~me"));
    assert!(!str_eq("~me", "~mE"));
    assert!(!str_eq("", "a"));
}

#[test]
fn parse_i32_accepts_signed_decimals() {
    assert_eq!(parse_i32("42"), Some(42));
    assert_eq!(parse_i32("-42"), Some(-42));
    assert_eq!(parse_i32("+7"), Some(7));
    assert_eq!(parse_i32("007"), Some(7));
    assert_eq!(parse_i32("2147483647"), Some(i32::MAX));
    assert_eq!(parse_i32("-2147483648"), Some(i32::MIN));
}

#[test]
fn parse_i32_rejects_junk_and_overflow() {
    assert_eq!(parse_i32(""), None);
    assert_eq!(parse_i32("-"), None);
    assert_eq!(parse_i32("12a"), None);
    assert_eq!(parse_i32("~me"), None);
    assert_eq!(parse_i32("2147483648"), None);
    assert_eq!(parse_i32("-2147483649"), None);
    assert_eq!(parse_i32("99999999999999999999"), None);
}

#[test]
fn format_renders_decimals() {
    assert_eq!(format_u32(0), "0");
    assert_eq!(format_u32(1234567890), "1234567890");
    assert_eq!(format_i32(0), "0");
    assert_eq!(format_i32(-5), "-5");
    assert_eq!(format_i32(i32::MAX), "2147483647");
    assert_eq!(format_i32(i32::MIN), "-2147483648");
}

#[test]
fn route_post_users_is_signup() {
    match plan_route(&Method::Post, "/users") {
        RoutePlan::Immediate(Endpoint::CreateUser) => {}
        other => panic!("unexpected plan: {:?}", other),
    }
}

#[test]
fn route_get_users_is_method_not_allowed() {
    match plan_route(&Method::Get, "/users") {
        RoutePlan::Rejected(ApiError::MethodNotAllowed) => {}
        other => panic!("unexpected plan: {:?}", other),
    }
}

#[test]
fn route_post_logins_is_login() {
    match plan_route(&Method::Post, "/logins") {
        RoutePlan::Immediate(Endpoint::CreateLogin) => {}
        other => panic!("unexpected plan: {:?}", other),
    }
}

#[test]
fn route_get_subscription_tiers_and_settings() {
    match plan_route(&Method::Get, "/subscription_tiers") {
        RoutePlan::Immediate(Endpoint::ListTiers) => {}
        other => panic!("unexpected plan: {:?}", other),
    }
    match plan_route(&Method::Get, "/settings/") {
        RoutePlan::Immediate(Endpoint::GetSettings) => {}
        other => panic!("unexpected plan: {:?}", other),
    }
}

#[test]
fn route_unknown_path_is_not_found() {
    match plan_route(&Method::Get, "/nope") {
        RoutePlan::Rejected(ApiError::NotFound) => {}
        other => panic!("unexpected plan: {:?}", other),
    }
    match plan_route(&Method::Get, "/users/5/unknown") {
        RoutePlan::UserScoped { rest, .. } => assert_eq!(rest, "unknown/"),
        other => panic!("unexpected plan: {:?}", other),
    }
}

#[test]
fn route_user_segment_parses_id_me_and_junk() {
    match plan_route(&Method::Get, "/users/5") {
        RoutePlan::UserScoped { target: UserIDOrMe::ID(u), rest } => {
            assert_eq!(u.to_raw(), 5);
            assert_eq!(rest, "");
        }
        other => panic!("unexpected plan: {:?}", other),
    }
    match plan_route(&Method::Get, "/users/~me") {
        RoutePlan::UserScoped { target: UserIDOrMe::Me, rest } => assert_eq!(rest, ""),
        other => panic!("unexpected plan: {:?}", other),
    }
    match plan_route(&Method::Get, "/users/abc") {
        RoutePlan::Rejected(ApiError::BadRequest(m)) => {
            assert_eq!(m, "Invalid user ID segment. Must be an integer or '~me'")
        }
        other => panic!("unexpected plan: {:?}", other),
    }
}

#[test]
fn route_empty_user_segment_is_a_bad_request() {
    match plan_route(&Method::Get, "/users//") {
        RoutePlan::Rejected(ApiError::BadRequest(m)) => {
            assert_eq!(m, "Invalid user ID segment. Must be an integer or '~me'")
        }
        other => panic!("unexpected plan: {:?}", other),
    }
}

#[test]
fn route_logins_subpath_is_not_found() {
    match plan_route(&Method::Post, "/logins/extra") {
        RoutePlan::Rejected(ApiError::NotFound) => {}
        other => panic!("unexpected plan: {:?}", other),
    }
}

#[test]
fn resolve_me_without_login_requires_login() {
    match resolve_user(UserIDOrMe::Me, None) {
        Err(ApiError::LoginRequired) => {}
        other => panic!("unexpected: {:?}", other),
    }
}

#[test]
fn resolve_me_with_login_is_always_self() {
    let (u, is_self) = resolve_user(UserIDOrMe::Me, Some(UserID::new(9))).unwrap();
    assert_eq!(u.to_raw(), 9);
    assert!(is_self);
}

#[test]
fn resolve_explicit_id_sets_is_self_by_caller() {
    let (u, is_self) = resolve_user(UserIDOrMe::ID(UserID::new(5)), Some(UserID::new(5))).unwrap();
    assert_eq!(u.to_raw(), 5);
    assert!(is_self);
    let (_, other) = resolve_user(UserIDOrMe::ID(UserID::new(5)), Some(UserID::new(7))).unwrap();
    assert!(!other);
    let (_, anon) = resolve_user(UserIDOrMe::ID(UserID::new(5)), None).unwrap();
    assert!(!anon);
}

#[test]
fn ensure_me_rejects_other_callers() {
    assert!(ensure_me(true).is_ok());
    match ensure_me(false) {
        Err(ApiError::OnlyForMe) => {}
        other => panic!("unexpected: {:?}", other),
    }
}

#[test]
fn dispatch_user_covers_the_user_subtree() {
    let me = UserID::new(3);
    match dispatch_user(&Method::Get, "", me, true) {
        Ok(UserEndpoint::GetSelf { user }) => assert_eq!(user.to_raw(), 3),
        other => panic!("unexpected: {:?}", other),
    }
    match dispatch_user(&Method::Post, "", me, true) {
        Err(ApiError::MethodNotAllowed) => {}
        other => panic!("unexpected: {:?}", other),
    }
    match dispatch_user(&Method::Get, "redirects/", me, true) {
        Ok(UserEndpoint::ListRedirects { .. }) => {}
        other => panic!("unexpected: {:?}", other),
    }
    match dispatch_user(&Method::Post, "redirects/", me, false) {
        Err(ApiError::OnlyForMe) => {}
        other => panic!("unexpected: {:?}", other),
    }
    match dispatch_user(&Method::Get, "subscription_tier/", me, false) {
        Ok(UserEndpoint::GetSubscriptionTier { .. }) => {}
        other => panic!("unexpected: {:?}", other),
    }
    match dispatch_user(&Method::Post, "checkout_sessions/", me, true) {
        Ok(UserEndpoint::StartCheckout { .. }) => {}
        other => panic!("unexpected: {:?}", other),
    }
    match dispatch_user(&Method::Get, "checkout_sessions/", me, true) {
        Err(ApiError::MethodNotAllowed) => {}
        other => panic!("unexpected: {:?}", other),
    }
    match dispatch_user(&Method::Get, "redirects/extra/", me, true) {
        Err(ApiError::NotFound) => {}
        other => panic!("unexpected: {:?}", other),
    }
}
