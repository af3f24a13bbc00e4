use redirect_gateway::UserID;
use redirect_gateway::auth::{TokenClaim, auth_outcome, classify_authorization};
use redirect_gateway::errors::{ApiError, DbFailure};
use redirect_gateway::executor::{PoolCounters, run_query, tack_on};

#[test]
fn absent_header_is_anonymous() {
    assert_eq!(classify_authorization(None), TokenClaim::Anonymous);
}

#[test]
fn malformed_headers_are_anonymous_never_an_error() {
    for h in [
        "",
        "Bearer",
        "Bearer ",
        "Bearer not-a-token",
        "bearer 936da01f-9abd-4d9d-80c7-02af85c822a8",
        "Basic dXNlcjpwdw==",
        "936da01f-9abd-4d9d-80c7-02af85c822a8",
    ] {
        assert_eq!(classify_authorization(Some(h)), TokenClaim::Anonymous);
        assert_eq!(auth_outcome(classify_authorization(Some(h)), None), Ok(None));
    }
}

#[test]
fn well_formed_bearer_token_is_claimed_with_its_value() {
    let claim = classify_authorization(Some("Bearer 936da01f-9abd-4d9d-80c7-02af85c822a8"));
    let expected = uuid::Uuid::parse_str("936da01f-9abd-4d9d-80c7-02af85c822a8")
        .unwrap()
        .as_u128();
    assert_eq!(claim, TokenClaim::Claimed(expected));
}

#[test]
fn unknown_claimed_token_is_invalid_token() {
    match auth_outcome(TokenClaim::Claimed(42), None) {
        Err(ApiError::InvalidToken) => {}
        other => panic!("unexpected: {:?}", other),
    }
}

#[test]
fn known_claimed_token_resolves_to_its_owner() {
    assert_eq!(auth_outcome(TokenClaim::Claimed(42), Some(7)), Ok(Some(UserID::new(7))));
}

#[test]
fn invalid_token_maps_to_400_with_its_text() {
    let e = ApiError::InvalidToken;
    assert_eq!(e.status(), 400);
    assert_eq!(e.body_text(), "Unrecognized authentication token");
}

#[test]
fn error_mapping_is_fixed_per_variant() {
    assert_eq!(ApiError::NotFound.status(), 404);
    assert_eq!(ApiError::NotFound.body_text(), "Not Found");
    assert_eq!(ApiError::MethodNotAllowed.status(), 405);
    assert_eq!(ApiError::MethodNotAllowed.body_text(), "Method Not Allowed");
    assert_eq!(ApiError::BadRequest("oops".to_string()).status(), 400);
    assert_eq!(ApiError::BadRequest("oops".to_string()).body_text(), "oops");
    assert_eq!(ApiError::MissingResource("No such user".to_string()).status(), 404);
    assert_eq!(ApiError::LoginRequired.status(), 401);
    assert_eq!(ApiError::LoginRequired.body_text(), "Login is required for '~me' paths");
    assert_eq!(ApiError::RedirectLoginRequired.status(), 401);
    assert_eq!(
        ApiError::RedirectLoginRequired.body_text(),
        "Login is required to access redirects"
    );
    assert_eq!(ApiError::IncorrectPassword.status(), 401);
    assert_eq!(ApiError::IncorrectPassword.body_text(), "Incorrect password");
    assert_eq!(ApiError::OnlyForMe.status(), 401);
    assert_eq!(ApiError::OnlyForMe.body_text(), "This endpoint is only available for ~me");
    assert_eq!(ApiError::Forbidden.status(), 403);
    assert_eq!(ApiError::Forbidden.body_text(), "That's not your redirect");
    assert_eq!(ApiError::Unimplemented.status(), 500);
    assert_eq!(ApiError::Unimplemented.body_text(), "Internal Server Error");
}

#[test]
fn internal_error_response_never_leaks_its_cause() {
    let e = ApiError::internal("SECRET-REDACTED connection string".to_string());
    assert_eq!(e.status(), 500);
    assert_eq!(e.body_text(), "Internal Server Error");
}

#[test]
fn db_failure_messages_name_the_cause() {
    assert_eq!(DbFailure::TimedOut.message(), "Database connection timed out");
    assert_eq!(DbFailure::Query("boom".to_string()).message(), "Database error: boom");
}

#[test]
fn tack_on_pairs_both_sides() {
    let ok: Result<i32, &str> = Ok(1);
    assert_eq!(tack_on(ok, "conn"), Ok((1, "conn")));
    let err: Result<i32, &str> = Err("bad");
    assert_eq!(tack_on(err, "conn"), Err(("bad", "conn")));
}

#[test]
fn query_timeout_releases_nothing_and_reports_timeout() {
    let mut pool = PoolCounters::new();
    let r: Result<Vec<i32>, DbFailure> = run_query(&mut pool, false, Ok(vec![1]));
    assert!(matches!(r, Err(DbFailure::TimedOut)));
    assert_eq!(pool.acquired, 0);
    assert_eq!(pool.released, 0);
}

#[test]
fn query_success_releases_exactly_once() {
    let mut pool = PoolCounters::new();
    let r: Result<Vec<i32>, DbFailure> = run_query(&mut pool, true, Ok(vec![1, 2]));
    assert_eq!(r.unwrap(), vec![1, 2]);
    assert_eq!(pool.acquired, 1);
    assert_eq!(pool.released, 1);
}

#[test]
fn query_failure_still_releases_exactly_once() {
    let mut pool = PoolCounters::new();
    let r: Result<Vec<i32>, DbFailure> = run_query(&mut pool, true, Err("syntax error".to_string()));
    match r {
        Err(DbFailure::Query(d)) => assert_eq!(d, "syntax error"),
        other => panic!("unexpected: {:?}", other),
    }
    assert_eq!(pool.acquired, 1);
    assert_eq!(pool.released, 1);
    let r2: Result<Vec<i32>, DbFailure> = run_query(&mut pool, true, Ok(Vec::new()));
    assert_eq!(r2.unwrap(), Vec::<i32>::new());
    assert_eq!(pool.acquired, 2);
    assert_eq!(pool.released, 2);
}

#[test]
fn empty_row_set_is_not_an_executor_error() {
    let mut pool = PoolCounters::new();
    let r: Result<Option<i32>, DbFailure> = run_query(&mut pool, true, Ok(None));
    assert_eq!(r.unwrap(), None);
}
