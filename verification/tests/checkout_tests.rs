use redirect_gateway::accounts::UserTable;
use redirect_gateway::checkout::{
    SagaAction, SagaEvent, SessionTable, run_checkout, saga_step, start_checkout,
};
use redirect_gateway::errors::ApiError;
use redirect_gateway::tiers::TierRow;

fn tier(id: i32, plan: Option<&str>) -> TierRow {
    TierRow {
        id,
        name: format!("tier{}", id),
        stripe_plan: plan.map(|p| p.to_string()),
        visit_limit: 1000,
    }
}

fn users_with(id: i32, email: &str) -> UserTable {
    let mut users = UserTable::new();
    for n in 1..=id {
        let addr = if n == id { email.to_string() } else { format!("user{}@example.com", n) };
        users.insert_user(addr, "$2b$hash".to_string()).unwrap();
    }
    users
}

#[test]
fn checkout_for_unknown_tier_is_rejected_with_no_row_inserted() {
    let tiers = vec![tier(0, None), tier(1, Some("plan_basic"))];
    let users = users_with(1, "a@b.com");
    let mut sessions = SessionTable::new();
    let (outcome, request) = run_checkout(
        &tiers,
        &users,
        &mut sessions,
        1,
        99,
        Some("sk".to_string()),
        Some("https://front".to_string()),
        1000,
        Ok("cs_1".to_string()),
    );
    match outcome {
        Err(ApiError::BadRequest(m)) => assert_eq!(m, "No such subscription tier"),
        other => panic!("unexpected: {:?}", other),
    }
    assert!(request.is_none());
    assert!(sessions.rows.is_empty());
}

#[test]
fn checkout_for_tier_without_plan_is_rejected_too() {
    let tiers = vec![tier(0, None)];
    let users = users_with(1, "a@b.com");
    let mut sessions = SessionTable::new();
    let (outcome, request) = run_checkout(
        &tiers,
        &users,
        &mut sessions,
        1,
        0,
        Some("sk".to_string()),
        Some("https://front".to_string()),
        1000,
        Ok("cs_1".to_string()),
    );
    match outcome {
        Err(ApiError::BadRequest(m)) => assert_eq!(m, "No such subscription tier"),
        other => panic!("unexpected: {:?}", other),
    }
    assert!(request.is_none());
    assert!(sessions.rows.is_empty());
}

#[test]
fn successful_checkout_records_intent_then_the_session_id() {
    let tiers = vec![tier(0, None), tier(2, Some("plan_pro"))];
    let users = users_with(1, "buyer@example.com");
    let mut sessions = SessionTable::new();
    let (outcome, request) = run_checkout(
        &tiers,
        &users,
        &mut sessions,
        1,
        2,
        Some("sk_test".to_string()),
        Some("https://front".to_string()),
        7777,
        Ok("cs_live_1".to_string()),
    );
    assert_eq!(outcome.unwrap(), "cs_live_1");
    let req = request.unwrap();
    assert_eq!(req.customer_email, "buyer@example.com");
    assert_eq!(req.plan, "plan_pro");
    assert_eq!(req.client_reference_id, "1");
    assert_eq!(sessions.rows.len(), 1);
    let row = &sessions.rows[0];
    assert_eq!(row.user_id, 1);
    assert_eq!(row.tier_id, 2);
    assert_eq!(row.created_at, 7777);
    assert_eq!(row.stripe_id.as_deref(), Some("cs_live_1"));
}

#[test]
fn provider_failure_leaves_an_orphaned_intent_row() {
    let tiers = vec![tier(2, Some("plan_pro"))];
    let users = users_with(1, "buyer@example.com");
    let mut sessions = SessionTable::new();
    let (outcome, request) = run_checkout(
        &tiers,
        &users,
        &mut sessions,
        1,
        2,
        Some("sk_test".to_string()),
        Some("https://front".to_string()),
        1,
        Err("502 Bad Gateway".to_string()),
    );
    match outcome {
        Err(ApiError::Internal(d)) => assert!(d.contains("Received error from stripe")),
        other => panic!("unexpected: {:?}", other),
    }
    assert!(request.is_some());
    assert_eq!(sessions.rows.len(), 1);
    assert_eq!(sessions.rows[0].stripe_id, None);
}

#[test]
fn missing_user_fails_after_the_intent_row_exists() {
    let tiers = vec![tier(2, Some("plan_pro"))];
    let users = UserTable::new();
    let mut sessions = SessionTable::new();
    let (outcome, request) = run_checkout(
        &tiers,
        &users,
        &mut sessions,
        1,
        2,
        Some("sk".to_string()),
        Some("https://front".to_string()),
        1,
        Ok("cs_1".to_string()),
    );
    assert!(matches!(outcome, Err(ApiError::Internal(_))));
    assert!(request.is_none());
    assert_eq!(sessions.rows.len(), 1);
    assert_eq!(sessions.rows[0].stripe_id, None);
}

#[test]
fn missing_configuration_fails_before_any_row_is_written() {
    let tiers = vec![tier(2, Some("plan_pro"))];
    let users = users_with(1, "a@b.com");
    let mut sessions = SessionTable::new();
    let (outcome, request) = run_checkout(
        &tiers,
        &users,
        &mut sessions,
        1,
        2,
        None,
        Some("https://front".to_string()),
        1,
        Ok("cs_1".to_string()),
    );
    assert!(matches!(outcome, Err(ApiError::Internal(_))));
    assert!(request.is_none());
    assert!(sessions.rows.is_empty());
}

#[test]
fn saga_calls_the_provider_only_after_the_intent_is_recorded() {
    let (saga, act) = start_checkout(5, 2, Some("sk".to_string()), Some("https://f".to_string()));
    assert!(matches!(act, SagaAction::QueryTierPlan { tier_id: 2 }));
    let (saga, act) = saga_step(saga, SagaEvent::TierPlan(Ok(Some(Some("plan_x".to_string())))));
    // Tier validated: the next action is the local insert, not the
    // provider call.
    assert!(matches!(act, SagaAction::RecordIntent { user_id: 5, tier_id: 2 }));
    let (saga, act) = saga_step(saga, SagaEvent::IntentRecorded(Ok(Some(31))));
    assert!(matches!(act, SagaAction::QueryEmail { user_id: 5 }));
    let (saga, act) = saga_step(saga, SagaEvent::EmailRow(Ok(Some("a@b.com".to_string()))));
    let req = match act {
        SagaAction::CallProvider(req) => req,
        other => panic!("unexpected: {:?}", other),
    };
    assert_eq!(req.plan, "plan_x");
    assert_eq!(req.customer_email, "a@b.com");
    let (saga, act) = saga_step(saga, SagaEvent::ProviderResponse(Ok("cs_9".to_string())));
    match act {
        SagaAction::RecordStripeId { session_row, stripe_id } => {
            assert_eq!(session_row, 31);
            assert_eq!(stripe_id, "cs_9");
        }
        other => panic!("unexpected: {:?}", other),
    }
    let (_saga, act) = saga_step(saga, SagaEvent::SessionRecorded(Ok(1)));
    match act {
        SagaAction::Succeed { stripe_id } => assert_eq!(stripe_id, "cs_9"),
        other => panic!("unexpected: {:?}", other),
    }
}

#[test]
fn recording_failure_after_a_live_session_is_surfaced_not_retried() {
    let (saga, _) = start_checkout(5, 2, Some("sk".to_string()), Some("https://f".to_string()));
    let (saga, _) = saga_step(saga, SagaEvent::TierPlan(Ok(Some(Some("p".to_string())))));
    let (saga, _) = saga_step(saga, SagaEvent::IntentRecorded(Ok(Some(1))));
    let (saga, _) = saga_step(saga, SagaEvent::EmailRow(Ok(Some("a@b.com".to_string()))));
    let (saga, _) = saga_step(saga, SagaEvent::ProviderResponse(Ok("cs_9".to_string())));
    let (_saga, act) = saga_step(
        saga,
        SagaEvent::SessionRecorded(Err(redirect_gateway::errors::DbFailure::TimedOut)),
    );
    assert!(matches!(act, SagaAction::Fail(ApiError::Internal(_))));
}

#[test]
fn set_stripe_id_touches_only_its_row() {
    let mut sessions = SessionTable::new();
    let a = sessions.insert_intent(1, 2, 10);
    let b = sessions.insert_intent(3, 4, 11);
    assert_ne!(a, b);
    assert!(sessions.set_stripe_id(b, "cs_b".to_string()));
    assert_eq!(sessions.find(a).unwrap().stripe_id, None);
    assert_eq!(sessions.find(b).unwrap().stripe_id.as_deref(), Some("cs_b"));
    assert!(!sessions.set_stripe_id(999, "cs_x".to_string()));
}
