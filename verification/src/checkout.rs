//! The checkout saga: tier validation, the local intent row, the
//! user's email, the external checkout-session creation, and the
//! reconciliation of the provider's session id — in that order, each
//! step a possible failure point.
//!
//! The local intent row is always recorded before the external call,
//! so an external session can be traced back to a local row even when
//! a later step fails; a row whose external identifier never arrives
//! stays behind with none, the system's accepted reconciliation gap.
//! A failure to record the identifier after a successful external call
//! is surfaced as an error and never retried: a retry could create a
//! second live payment session.

use vstd::prelude::*;

use crate::UserID;
use crate::errors::ApiError;
use crate::errors::DbFailure;
use crate::accounts::UserTable;
use crate::accounts::has_user;
use crate::numbers::dec_str;
use crate::provider::ProviderRequest;
use crate::provider::base64_of;
use crate::provider::checkout_request;
use crate::tiers::TierRow;
use crate::tiers::clone_plan;
use crate::tiers::find_tier_row;
use crate::tiers::has_tier_plan;

verus! {

/// One row of the `subscription_checkout_sessions` relation.
#[derive(Debug)]
pub struct CheckoutRow {
    pub id: i32,
    pub user_id: i32,
    pub tier_id: i32,
    pub created_at: i64,
    /// The provider's session id, absent until the external call has
    /// succeeded and its outcome has been recorded.
    pub stripe_id: Option<String>,
}

/// The `subscription_checkout_sessions` relation: ids assigned in
/// insertion order.
#[derive(Debug)]
pub struct SessionTable {
    pub rows: Vec<CheckoutRow>,
    pub next_id: i32,
}

impl SessionTable {
    /// Ids are unique and below the allocator.
    pub open spec fn wf(&self) -> bool {
        &&& forall|i: int, j: int|
            0 <= i < j < self.rows@.len() ==> self.rows@[i].id != self.rows@[j].id
        &&& forall|i: int| 0 <= i < self.rows@.len() ==> #[trigger] self.rows@[i].id < self.next_id
    }

    /// An empty relation; the first session gets id 1.
    pub fn new() -> (t: SessionTable)
        ensures
            t.wf(),
            t.rows@.len() == 0,
            t.next_id == 1,
    {
        SessionTable { rows: Vec::new(), next_id: 1 }
    }

    /// Records checkout intent: a fresh row with no external
    /// identifier yet.
    pub fn insert_intent(&mut self, user_id: i32, tier_id: i32, created_at: i64) -> (r: i32)
        requires
            old(self).wf(),
            old(self).next_id < i32::MAX,
        ensures
            final(self).wf(),
            r == old(self).next_id,
            final(self).next_id == old(self).next_id + 1,
            final(self).rows@ == old(self).rows@.push(
                CheckoutRow {
                    id: old(self).next_id,
                    user_id: user_id,
                    tier_id: tier_id,
                    created_at: created_at,
                    stripe_id: None,
                },
            ),
    {
        let id = self.next_id;
        self.rows.push(CheckoutRow { id, user_id, tier_id, created_at, stripe_id: None });
        self.next_id = self.next_id + 1;
        id
    }

    /// Records the provider's session id on the row it belongs to,
    /// touching no other row; says whether such a row exists.
    pub fn set_stripe_id(&mut self, id: i32, stripe_id: String) -> (updated: bool)
        requires
            old(self).wf(),
        ensures
            final(self).wf(),
            final(self).next_id == old(self).next_id,
            final(self).rows@.len() == old(self).rows@.len(),
            updated == exists|k: int|
                0 <= k < old(self).rows@.len() && (#[trigger] old(self).rows@[k]).id == id,
            forall|i: int|
                0 <= i < old(self).rows@.len() && old(self).rows@[i].id != id ==> final(self).rows@[i]
                    == old(self).rows@[i],
            forall|i: int|
                0 <= i < old(self).rows@.len() && old(self).rows@[i].id == id ==> final(self).rows@[i]
                    == (CheckoutRow { stripe_id: Some(stripe_id), ..old(self).rows@[i] }),
    {
        let n = self.rows.len();
        let mut i: usize = 0;
        while i < n
            invariant
                i <= n,
                n == old(self).rows@.len(),
                self.rows@.len() == n,
                self.next_id == old(self).next_id,
                old(self).wf(),
                forall|j: int| 0 <= j < i ==> (#[trigger] old(self).rows@[j]).id != id,
                self.rows@ == old(self).rows@,
            decreases n - i,
        {
            if self.rows[i].id == id {
                self.rows[i].stripe_id = Some(stripe_id);
                proof {
                    assert forall|j: int|
                        0 <= j < old(self).rows@.len() && old(self).rows@[j].id == id implies
                        self.rows@[j] == (CheckoutRow {
                            stripe_id: self.rows@[i as int].stripe_id,
                            ..old(self).rows@[j]
                        }) by {
                        if j != i {
                            assert(old(self).rows@[j].id == old(self).rows@[i as int].id);
                        }
                    }
                }
                return true;
            }
            i += 1;
        }
        false
    }

    /// The row with this id.
    pub fn find(&self, id: i32) -> (r: Option<&CheckoutRow>)
        ensures
            match r {
                Some(row) => exists|k: int|
                    0 <= k < self.rows@.len() && (#[trigger] self.rows@[k]).id == id && *row
                        == self.rows@[k],
                None => forall|k: int|
                    0 <= k < self.rows@.len() ==> (#[trigger] self.rows@[k]).id != id,
            },
    {
        let n = self.rows.len();
        let mut i: usize = 0;
        while i < n
            invariant
                i <= n,
                n == self.rows@.len(),
                forall|j: int| 0 <= j < i ==> (#[trigger] self.rows@[j]).id != id,
            decreases n - i,
        {
            if self.rows[i].id == id {
                return Some(&self.rows[i]);
            }
            i += 1;
        }
        None
    }
}

/// Where the saga stands: what it is waiting for next.
#[derive(Debug)]
pub enum SagaPhase {
    /// Waiting for the tier row's configured plan.
    AwaitTierPlan,
    /// Tier validated; waiting for the intent row's id.
    AwaitIntent { plan: String },
    /// Intent recorded; waiting for the user's email.
    AwaitEmail { plan: String, session_row: i32 },
    /// External call under way; waiting for the provider's answer.
    AwaitProvider { session_row: i32 },
    /// Provider answered; waiting for the identifier to be recorded.
    AwaitRecord { session_row: i32, stripe_id: String },
    /// The saga has responded, one way or the other.
    Finished,
}

/// One checkout saga in flight.
#[derive(Debug)]
pub struct CheckoutSaga {
    pub user_id: i32,
    pub tier_id: i32,
    pub secret_key: Option<String>,
    pub frontend_host: Option<String>,
    pub phase: SagaPhase,
}

/// What the surrounding process reports back to the saga.
#[derive(Debug)]
pub enum SagaEvent {
    /// The tier row's `stripe_plan`: outer `None` is no such tier,
    /// inner `None` a tier with no configured plan.
    TierPlan(Result<Option<Option<String>>, DbFailure>),
    /// The id the intent insert returned.
    IntentRecorded(Result<Option<i32>, DbFailure>),
    /// The user's email, if the user row exists.
    EmailRow(Result<Option<String>, DbFailure>),
    /// The provider's session id, or a description of the transport
    /// failure or error response.
    ProviderResponse(Result<String, String>),
    /// How many rows the identifier update touched.
    SessionRecorded(Result<u64, DbFailure>),
}

/// What the saga asks the surrounding process to do next.
#[derive(Debug)]
pub enum SagaAction {
    /// Read the tier's configured plan.
    QueryTierPlan { tier_id: i32 },
    /// Insert the intent row, external identifier null.
    RecordIntent { user_id: i32, tier_id: i32 },
    /// Read the user's email.
    QueryEmail { user_id: i32 },
    /// Send the checkout-session creation request.
    CallProvider(ProviderRequest),
    /// Record the provider's session id on the intent row.
    RecordStripeId { session_row: i32, stripe_id: String },
    /// Respond with the provider's session id.
    Succeed { stripe_id: String },
    /// Respond with this error.
    Fail(ApiError),
}

/// Once the tier is validated the saga's configuration is known
/// present: later phases build the provider request from it.
pub open spec fn saga_wf(s: &CheckoutSaga) -> bool {
    match s.phase {
        SagaPhase::AwaitTierPlan => true,
        SagaPhase::Finished => true,
        _ => s.secret_key is Some && s.frontend_host is Some,
    }
}

/// Which event each phase is waiting for.
pub open spec fn event_matches_phase(phase: &SagaPhase, event: &SagaEvent) -> bool {
    match (phase, event) {
        (SagaPhase::AwaitTierPlan, SagaEvent::TierPlan(_)) => true,
        (SagaPhase::AwaitIntent { .. }, SagaEvent::IntentRecorded(_)) => true,
        (SagaPhase::AwaitEmail { .. }, SagaEvent::EmailRow(_)) => true,
        (SagaPhase::AwaitProvider { .. }, SagaEvent::ProviderResponse(_)) => true,
        (SagaPhase::AwaitRecord { .. }, SagaEvent::SessionRecorded(_)) => true,
        _ => false,
    }
}

/// Starts a checkout saga for an authorized self-only caller; the
/// first thing it asks for is the tier validation — nothing is written
/// and nothing external is called before that answer arrives.
pub fn start_checkout(
    user_id: i32,
    tier_id: i32,
    secret_key: Option<String>,
    frontend_host: Option<String>,
) -> (r: (CheckoutSaga, SagaAction))
    ensures
        r.0.user_id == user_id,
        r.0.tier_id == tier_id,
        r.0.secret_key == secret_key,
        r.0.frontend_host == frontend_host,
        r.0.phase is AwaitTierPlan,
        saga_wf(&r.0),
        r.1 == (SagaAction::QueryTierPlan { tier_id }),
{
    (
        CheckoutSaga { user_id, tier_id, secret_key, frontend_host, phase: SagaPhase::AwaitTierPlan },
        SagaAction::QueryTierPlan { tier_id },
    )
}

/// Advances the saga by one observed event.  The contract is the
/// transition table: it pins the next phase and the emitted action for
/// every phase/event pair, and in particular that the provider is only
/// ever called from a run whose intent row is already recorded.
pub fn saga_step(saga: CheckoutSaga, event: SagaEvent) -> (r: (CheckoutSaga, SagaAction))
    requires
        !(saga.phase is Finished),
        saga_wf(&saga),
        event_matches_phase(&saga.phase, &event),
    ensures
        saga_wf(&r.0),
        r.0.user_id == saga.user_id,
        r.0.tier_id == saga.tier_id,
        r.0.secret_key == saga.secret_key,
        r.0.frontend_host == saga.frontend_host,
        (r.1 matches SagaAction::Fail(_) || r.1 matches SagaAction::Succeed { .. }) <==> r.0.phase
            is Finished,
        match (saga.phase, event) {
            (SagaPhase::AwaitTierPlan, SagaEvent::TierPlan(res)) => match res {
                Err(_) => r.1 matches SagaAction::Fail(e) && e matches ApiError::Internal(_),
                Ok(None) => r.1 matches SagaAction::Fail(e) && e matches ApiError::BadRequest(m)
                    && m@ == "No such subscription tier"@,
                Ok(Some(None)) => r.1 matches SagaAction::Fail(e) && e matches ApiError::BadRequest(
                    m,
                ) && m@ == "No such subscription tier"@,
                Ok(Some(Some(plan))) => if saga.secret_key is None || saga.frontend_host is None {
                    r.1 matches SagaAction::Fail(e) && e matches ApiError::Internal(_)
                } else {
                    (r.0.phase matches SagaPhase::AwaitIntent { plan: p } && p@ == plan@) && r.1
                        == (SagaAction::RecordIntent {
                        user_id: saga.user_id,
                        tier_id: saga.tier_id,
                    })
                },
            },
            (SagaPhase::AwaitIntent { plan }, SagaEvent::IntentRecorded(res)) => match res {
                Err(_) => r.1 matches SagaAction::Fail(e) && e matches ApiError::Internal(_),
                Ok(None) => r.1 matches SagaAction::Fail(e) && e matches ApiError::Internal(_),
                Ok(Some(row)) => (r.0.phase matches SagaPhase::AwaitEmail { plan: p, session_row }
                    && p@ == plan@ && session_row == row) && r.1 == (SagaAction::QueryEmail {
                    user_id: saga.user_id,
                }),
            },
            (SagaPhase::AwaitEmail { plan, session_row }, SagaEvent::EmailRow(res)) => match res {
                Err(_) => r.1 matches SagaAction::Fail(e) && e matches ApiError::Internal(_),
                Ok(None) => r.1 matches SagaAction::Fail(e) && e matches ApiError::Internal(_),
                Ok(Some(email)) => {
                    &&& r.0.phase matches SagaPhase::AwaitProvider { session_row: sr } && sr
                        == session_row
                    &&& r.1 matches SagaAction::CallProvider(req) && ({
                        &&& req.url@ == "https://api.stripe.com/v1/checkout/sessions"@
                        &&& req.auth_header@ == "Basic "@ + base64_of(
                            saga.secret_key.unwrap()@ + ":"@,
                        )
                        &&& req.cancel_url@ == saga.frontend_host.unwrap()@ + "/pricing"@
                        &&& req.client_reference_id@ == dec_str(saga.user_id as int)
                        &&& req.customer_email@ == email@
                        &&& req.payment_method_type@ == "card"@
                        &&& req.plan@ == plan@
                        &&& req.success_url@ == saga.frontend_host.unwrap()@
                            + "/purchaseCallback"@
                    })
                },
            },
            (SagaPhase::AwaitProvider { session_row }, SagaEvent::ProviderResponse(res)) => match res {
                Err(_) => r.1 matches SagaAction::Fail(e) && e matches ApiError::Internal(_),
                Ok(sid) => {
                    &&& r.0.phase matches SagaPhase::AwaitRecord { session_row: sr, stripe_id: s }
                        && sr == session_row && s@ == sid@
                    &&& r.1 matches SagaAction::RecordStripeId { session_row: sr2, stripe_id: s2 }
                        && sr2 == session_row && s2@ == sid@
                },
            },
            (SagaPhase::AwaitRecord { session_row, stripe_id }, SagaEvent::SessionRecorded(res)) => match res {
                Err(_) => r.1 matches SagaAction::Fail(e) && e matches ApiError::Internal(_),
                Ok(_) => r.1 matches SagaAction::Succeed { stripe_id: s } && s@ == stripe_id@,
            },
            _ => false,
        },
{
    let CheckoutSaga { user_id, tier_id, secret_key, frontend_host, phase } = saga;
    match (phase, event) {
        (SagaPhase::AwaitTierPlan, SagaEvent::TierPlan(res)) => match res {
            Err(f) => finish(user_id, tier_id, secret_key, frontend_host, f.into_internal()),
            Ok(None) => finish(
                user_id,
                tier_id,
                secret_key,
                frontend_host,
                ApiError::BadRequest(String::from_str("No such subscription tier")),
            ),
            Ok(Some(None)) => finish(
                user_id,
                tier_id,
                secret_key,
                frontend_host,
                ApiError::BadRequest(String::from_str("No such subscription tier")),
            ),
            Ok(Some(Some(plan))) => {
                if secret_key.is_none() {
                    finish(
                        user_id,
                        tier_id,
                        secret_key,
                        frontend_host,
                        ApiError::internal(String::from_str("Missing Stripe secret key")),
                    )
                } else if frontend_host.is_none() {
                    finish(
                        user_id,
                        tier_id,
                        secret_key,
                        frontend_host,
                        ApiError::internal(String::from_str("Missing frontend host")),
                    )
                } else {
                    (
                        CheckoutSaga {
                            user_id,
                            tier_id,
                            secret_key,
                            frontend_host,
                            phase: SagaPhase::AwaitIntent { plan },
                        },
                        SagaAction::RecordIntent { user_id, tier_id },
                    )
                }
            },
        },
        (SagaPhase::AwaitIntent { plan }, SagaEvent::IntentRecorded(res)) => match res {
            Err(f) => finish(user_id, tier_id, secret_key, frontend_host, f.into_internal()),
            Ok(None) => finish(
                user_id,
                tier_id,
                secret_key,
                frontend_host,
                ApiError::internal(String::from_str("Missing ID after insert somehow")),
            ),
            Ok(Some(row)) => (
                CheckoutSaga {
                    user_id,
                    tier_id,
                    secret_key,
                    frontend_host,
                    phase: SagaPhase::AwaitEmail { plan, session_row: row },
                },
                SagaAction::QueryEmail { user_id },
            ),
        },
        (SagaPhase::AwaitEmail { plan, session_row }, SagaEvent::EmailRow(res)) => match res {
            Err(f) => finish(user_id, tier_id, secret_key, frontend_host, f.into_internal()),
            Ok(None) => finish(
                user_id,
                tier_id,
                secret_key,
                frontend_host,
                ApiError::internal(String::from_str("Missing user somehow")),
            ),
            Ok(Some(email)) => {
                let key: &String = match &secret_key {
                    Some(k) => k,
                    None => unreached(),
                };
                let host: &String = match &frontend_host {
                    Some(h) => h,
                    None => unreached(),
                };
                let req = checkout_request(
                    key.as_str(),
                    host.as_str(),
                    UserID::new(user_id),
                    email.as_str(),
                    plan.as_str(),
                );
                (
                    CheckoutSaga {
                        user_id,
                        tier_id,
                        secret_key,
                        frontend_host,
                        phase: SagaPhase::AwaitProvider { session_row },
                    },
                    SagaAction::CallProvider(req),
                )
            },
        },
        (SagaPhase::AwaitProvider { session_row }, SagaEvent::ProviderResponse(res)) => match res {
            Err(detail) => finish(
                user_id,
                tier_id,
                secret_key,
                frontend_host,
                ApiError::internal(
                    String::from_str("Received error from stripe: ").concat(detail.as_str()),
                ),
            ),
            Ok(sid) => (
                CheckoutSaga {
                    user_id,
                    tier_id,
                    secret_key,
                    frontend_host,
                    phase: SagaPhase::AwaitRecord { session_row, stripe_id: sid.clone() },
                },
                SagaAction::RecordStripeId { session_row, stripe_id: sid },
            ),
        },
        (SagaPhase::AwaitRecord { session_row: _, stripe_id }, SagaEvent::SessionRecorded(res)) => match res {
            Err(f) => finish(user_id, tier_id, secret_key, frontend_host, f.into_internal()),
            Ok(_) => (
                CheckoutSaga {
                    user_id,
                    tier_id,
                    secret_key,
                    frontend_host,
                    phase: SagaPhase::Finished,
                },
                SagaAction::Succeed { stripe_id },
            ),
        },
        _ => unreached(),
    }
}

/// One whole checkout run against the relations, driven through the
/// saga machine, with the provider's answer as the one outside event.
///
/// The contract carries the saga's guarantees: an unknown or
/// unconfigured tier is rejected before anything is written; once the
/// tier is validated and the configuration is present, the intent row
/// is recorded — external identifier null — before any provider call;
/// a run that called the provider and got a session id records that id
/// on the same row; a run that failed later than the insert leaves the
/// row behind with no identifier.
pub fn run_checkout(
    tier_rows: &Vec<TierRow>,
    users: &UserTable,
    sessions: &mut SessionTable,
    user_id: i32,
    tier_id: i32,
    secret_key: Option<String>,
    frontend_host: Option<String>,
    now: i64,
    provider: Result<String, String>,
) -> (r: (Result<String, ApiError>, Option<ProviderRequest>))
    requires
        old(sessions).wf(),
        old(sessions).next_id < i32::MAX,
        users.wf(),
        forall|i: int, j: int|
            0 <= i < j < tier_rows@.len() ==> tier_rows@[i].id != tier_rows@[j].id,
    ensures
        final(sessions).wf(),
        final(sessions).rows@.len() >= old(sessions).rows@.len(),
        forall|i: int|
            0 <= i < old(sessions).rows@.len() ==> final(sessions).rows@[i] == old(sessions).rows@[i],
        !has_tier_plan(tier_rows@, tier_id) <==> (r.0 matches Err(e) && e matches
            ApiError::BadRequest(m) && m@ == "No such subscription tier"@),
        !has_tier_plan(tier_rows@, tier_id) ==> final(sessions).rows@ == old(sessions).rows@
            && r.1 is None,
        has_tier_plan(tier_rows@, tier_id) && (secret_key is None || frontend_host is None) ==> (
        r.0 matches Err(e) && e matches ApiError::Internal(_)) && final(sessions).rows@ == old(sessions).rows@ && r.1 is None,
        has_tier_plan(tier_rows@, tier_id) && secret_key is Some && frontend_host is Some ==> ({
            &&& final(sessions).rows@.len() == old(sessions).rows@.len() + 1
            &&& final(sessions).rows@.last().id == old(sessions).next_id
            &&& final(sessions).rows@.last().user_id == user_id
            &&& final(sessions).rows@.last().tier_id == tier_id
            &&& final(sessions).rows@.last().created_at == now
        }),
        has_tier_plan(tier_rows@, tier_id) && secret_key is Some && frontend_host is Some
            && !has_user(users.rows@, user_id) ==> (r.0 matches Err(e) && e matches
            ApiError::Internal(_)) && r.1 is None && final(sessions).rows@.last().stripe_id
            is None,
        r.1 is Some ==> has_tier_plan(tier_rows@, tier_id) && secret_key is Some && frontend_host
            is Some && has_user(users.rows@, user_id) && final(sessions).rows@.len() == old(sessions).rows@.len() + 1,
        r.1 matches Some(req) ==> ({
            &&& req.url@ == "https://api.stripe.com/v1/checkout/sessions"@
            &&& secret_key matches Some(k) && req.auth_header@ == "Basic "@ + base64_of(k@ + ":"@)
            &&& frontend_host matches Some(h) && req.cancel_url@ == h@ + "/pricing"@
                && req.success_url@ == h@ + "/purchaseCallback"@
            &&& req.client_reference_id@ == dec_str(user_id as int)
            &&& req.payment_method_type@ == "card"@
            &&& exists|k: int|
                0 <= k < users.rows@.len() && (#[trigger] users.rows@[k]).id == user_id
                    && req.customer_email@ == users.rows@[k].email@
            &&& exists|k: int|
                0 <= k < tier_rows@.len() && (#[trigger] tier_rows@[k]).id == tier_id && (
                tier_rows@[k].stripe_plan matches Some(p) && req.plan@ == p@)
        }),
        has_tier_plan(tier_rows@, tier_id) && secret_key is Some && frontend_host is Some
            && has_user(users.rows@, user_id) ==> r.1 is Some && (match provider {
            Ok(sid) => (r.0 matches Ok(s) && s@ == sid@) && (final(sessions).rows@.last().stripe_id matches Some(s2) && s2@ == sid@),
            Err(_) => (r.0 matches Err(e) && e matches ApiError::Internal(_)) && final(sessions).rows@.last().stripe_id is None,
        }),
        r.0 is Ok <==> has_tier_plan(tier_rows@, tier_id) && secret_key is Some && frontend_host
            is Some && has_user(users.rows@, user_id) && provider is Ok,
{
    let (saga, _act) = start_checkout(user_id, tier_id, secret_key, frontend_host);
    let lookup: Option<Option<String>> = match find_tier_row(tier_rows, tier_id) {
        None => None,
        Some(row) => Some(clone_plan(&row.stripe_plan)),
    };
    proof {
        match &lookup {
            None => {
                assert(!has_tier_plan(tier_rows@, tier_id));
            },
            Some(inner) => {
                if inner is None {
                    assert(!has_tier_plan(tier_rows@, tier_id)) by {
                        if has_tier_plan(tier_rows@, tier_id) {
                            let k = choose|k: int|
                                0 <= k < tier_rows@.len() && (#[trigger] tier_rows@[k]).id
                                    == tier_id && tier_rows@[k].stripe_plan is Some;
                            let k2 = choose|k2: int|
                                0 <= k2 < tier_rows@.len() && (#[trigger] tier_rows@[k2]).id
                                    == tier_id && tier_rows@[k2].stripe_plan is None;
                            assert(k != k2);
                            assert(tier_rows@[k].id == tier_rows@[k2].id);
                        }
                    };
                } else {
                    assert(has_tier_plan(tier_rows@, tier_id));
                }
            },
        }
    }
    let (saga, act) = saga_step(saga, SagaEvent::TierPlan(Ok(lookup)));
    let (saga, act) = match act {
        SagaAction::Fail(e) => {
            return (Err(e), None);
        },
        SagaAction::RecordIntent { user_id: u, tier_id: t } => {
            let row_id = sessions.insert_intent(u, t, now);
            saga_step(saga, SagaEvent::IntentRecorded(Ok(Some(row_id))))
        },
        _ => unreached(),
    };
    let (saga, act) = match act {
        SagaAction::QueryEmail { user_id: u } => {
            let email: Option<String> = match users.find_by_id(u) {
                None => None,
                Some(row) => Some(row.email.clone()),
            };
            saga_step(saga, SagaEvent::EmailRow(Ok(email)))
        },
        _ => unreached(),
    };
    let (saga, act, request) = match act {
        SagaAction::Fail(e) => {
            return (Err(e), None);
        },
        SagaAction::CallProvider(req) => {
            let (saga, act) = saga_step(saga, SagaEvent::ProviderResponse(provider));
            (saga, act, req)
        },
        _ => unreached(),
    };
    match act {
        SagaAction::Fail(e) => (Err(e), Some(request)),
        SagaAction::RecordStripeId { session_row, stripe_id } => {
            let updated = sessions.set_stripe_id(session_row, stripe_id);
            let count: u64 = if updated {
                1
            } else {
                0
            };
            let (_saga, act) = saga_step(saga, SagaEvent::SessionRecorded(Ok(count)));
            match act {
                SagaAction::Succeed { stripe_id } => (Ok(stripe_id), Some(request)),
                _ => unreached(),
            }
        },
        _ => unreached(),
    }
}

fn finish(
    user_id: i32,
    tier_id: i32,
    secret_key: Option<String>,
    frontend_host: Option<String>,
    error: ApiError,
) -> (r: (CheckoutSaga, SagaAction))
    ensures
        r.0.user_id == user_id,
        r.0.tier_id == tier_id,
        r.0.secret_key == secret_key,
        r.0.frontend_host == frontend_host,
        r.0.phase is Finished,
        r.1 == SagaAction::Fail(error),
{
    (
        CheckoutSaga { user_id, tier_id, secret_key, frontend_host, phase: SagaPhase::Finished },
        SagaAction::Fail(error),
    )
}

} // verus!
