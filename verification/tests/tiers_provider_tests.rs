use redirect_gateway::UserID;
use redirect_gateway::provider::{basic_auth_header, checkout_request, plan_lookup_url};
use redirect_gateway::tiers::{TierCache, TierRow, build_snapshot};

fn row(id: i32, name: &str, plan: Option<&str>, limit: i32) -> TierRow {
    TierRow {
        id,
        name: name.to_string(),
        stripe_plan: plan.map(|p| p.to_string()),
        visit_limit: limit,
    }
}

#[test]
fn snapshot_prices_free_tier_zero_and_failed_lookups_none() {
    let rows = vec![
        row(0, "Free", None, 100),
        row(1, "Basic", Some("plan_basic"), 1000),
        row(2, "Legacy", None, 500),
        row(3, "Pro", Some("plan_pro"), 10000),
    ];
    // Tier 1's lookup succeeded; tier 3's failed.  The failure prices
    // only tier 3 as unresolved and leaves every other entry as its
    // own lookup decided.
    let lookups = vec![None, Some(500), None, None];
    let snapshot = build_snapshot(&rows, &lookups);
    assert_eq!(snapshot.len(), 4);
    assert_eq!(snapshot[0].monthly_price, Some(0));
    assert_eq!(snapshot[1].monthly_price, Some(500));
    assert_eq!(snapshot[2].monthly_price, None);
    assert_eq!(snapshot[3].monthly_price, None);
    assert_eq!(snapshot[1].name, "Basic");
    assert_eq!(snapshot[1].stripe_plan.as_deref(), Some("plan_basic"));
    assert_eq!(snapshot[3].visit_limit, 10000);
}

#[test]
fn refresh_replaces_wholesale_and_failure_keeps_previous_snapshot() {
    let mut cache = TierCache::new();
    assert!(cache.tiers.is_empty());
    let rows = vec![row(0, "Free", None, 100), row(1, "Basic", Some("plan_basic"), 1000)];
    let snapshot = build_snapshot(&rows, &vec![None, Some(250)]);
    cache.commit_refresh(Some(snapshot));
    assert_eq!(cache.tiers.len(), 2);
    assert_eq!(cache.tiers[1].monthly_price, Some(250));
    // A cycle whose enumeration failed commits nothing.
    cache.commit_refresh(None);
    assert_eq!(cache.tiers.len(), 2);
    assert_eq!(cache.tiers[1].monthly_price, Some(250));
}

#[test]
fn cache_find_returns_the_entry_with_the_id() {
    let mut cache = TierCache::new();
    let rows = vec![row(0, "Free", None, 100), row(4, "Pro", Some("plan_pro"), 10000)];
    cache.commit_refresh(Some(build_snapshot(&rows, &vec![None, Some(900)])));
    assert_eq!(cache.find(4).unwrap().name, "Pro");
    assert!(cache.find(9).is_none());
}

#[test]
fn basic_auth_header_encodes_key_and_colon() {
    let h = basic_auth_header("sk_test_123");
    let expected = format!("Basic {}", base64::encode("sk_test_123:"));
    assert_eq!(h, expected);
    assert_ne!(h, "Basic sk_test_123");
}

#[test]
fn plan_lookup_url_escapes_the_plan_id() {
    assert_eq!(plan_lookup_url("plan_basic"), "https://api.stripe.com/v1/plans/plan%5Fbasic");
    assert_eq!(plan_lookup_url("a b+c"), "https://api.stripe.com/v1/plans/a%20b%2Bc");
}

#[test]
fn checkout_request_carries_every_field_it_sends() {
    let req = checkout_request(
        "sk_test_9",
        "https://front.example",
        UserID::new(41),
        "a@b.com",
        "plan_pro",
    );
    assert_eq!(req.url, "https://api.stripe.com/v1/checkout/sessions");
    assert_eq!(req.auth_header, format!("Basic {}", base64::encode("sk_test_9:")));
    assert_eq!(req.cancel_url, "https://front.example/pricing");
    assert_eq!(req.success_url, "https://front.example/purchaseCallback");
    assert_eq!(req.client_reference_id, "41");
    assert_eq!(req.customer_email, "a@b.com");
    assert_eq!(req.payment_method_type, "card");
    assert_eq!(req.plan, "plan_pro");
}
