//! Requests to the external payment provider: the per-plan price
//! lookup of the cache refresher, and the checkout-session creation of
//! the checkout saga.  This module fixes every character the process
//! sends — URLs, the basic-auth credential, and the checkout form's
//! fields — so the unverified transport only serializes and sends.

use vstd::prelude::*;

use crate::UserID;
use crate::numbers::dec_str;
use crate::numbers::format_i32;

verus! {

/// The standard-alphabet base64 rendering `base64::encode` gives a
/// string; a function of the input alone.
pub uninterp spec fn base64_of(s: Seq<char>) -> Seq<char>;

/// Relies on `base64::encode`: the standard-alphabet, padded base64
/// rendering of the input's bytes, a function of the input alone.
#[verifier::external_body]
fn base64_encode(s: &str) -> (r: String)
    ensures
        r@ == base64_of(s@),
{
    base64::encode(s)
}

/// The percent-escaped rendering a URL path or query segment gets; a
/// function of the input alone.
pub uninterp spec fn percent_of(s: Seq<char>) -> Seq<char>;

/// Relies on `percent_encoding::utf8_percent_encode` over the crate's
/// `NON_ALPHANUMERIC` set: every byte outside ASCII alphanumerics is
/// `%XX`-escaped, a function of the input alone; an empty input stays
/// empty.
#[verifier::external_body]
fn percent_encode_segment(s: &str) -> (r: String)
    ensures
        r@ == percent_of(s@),
        s@.len() == 0 ==> r@.len() == 0,
{
    percent_encoding::utf8_percent_encode(s, percent_encoding::NON_ALPHANUMERIC).to_string()
}

/// The basic-auth credential every provider call carries: `Basic `
/// followed by the base64 of the secret key with a trailing colon.
pub fn basic_auth_header(secret_key: &str) -> (r: String)
    ensures
        r@ == "Basic "@ + base64_of(secret_key@ + ":"@),
{
    let with_colon = String::from_str(secret_key).concat(":");
    let encoded = base64_encode(with_colon.as_str());
    String::from_str("Basic ").concat(encoded.as_str())
}

/// The URL of one tier's price lookup: the provider's plan resource,
/// with the plan id escaped into the path.
pub fn plan_lookup_url(plan_id: &str) -> (r: String)
    ensures
        r@ == "https://api.stripe.com/v1/plans/"@ + percent_of(plan_id@),
{
    let escaped = percent_encode_segment(plan_id);
    String::from_str("https://api.stripe.com/v1/plans/").concat(escaped.as_str())
}

/// Everything the checkout-session creation call sends: the resource
/// URL, the credential, and the form fields.  The unverified transport
/// form-encodes the fields and posts them; nothing it sends is outside
/// this value.
#[derive(Debug)]
pub struct ProviderRequest {
    pub url: String,
    pub auth_header: String,
    pub cancel_url: String,
    pub client_reference_id: String,
    pub customer_email: String,
    pub payment_method_type: String,
    pub plan: String,
    pub success_url: String,
}

/// Builds the checkout-session creation request: redirect targets on
/// the configured front end, the purchasing user as the client
/// reference, the user's email, card payment, and the tier's plan.
pub fn checkout_request(
    secret_key: &str,
    frontend_host: &str,
    user: UserID,
    email: &str,
    plan: &str,
) -> (r: ProviderRequest)
    ensures
        r.url@ == "https://api.stripe.com/v1/checkout/sessions"@,
        r.auth_header@ == "Basic "@ + base64_of(secret_key@ + ":"@),
        r.cancel_url@ == frontend_host@ + "/pricing"@,
        r.client_reference_id@ == dec_str(user.0 as int),
        r.customer_email@ == email@,
        r.payment_method_type@ == "card"@,
        r.plan@ == plan@,
        r.success_url@ == frontend_host@ + "/purchaseCallback"@,
{
    ProviderRequest {
        url: String::from_str("https://api.stripe.com/v1/checkout/sessions"),
        auth_header: basic_auth_header(secret_key),
        cancel_url: String::from_str(frontend_host).concat("/pricing"),
        client_reference_id: format_i32(user.to_raw()),
        customer_email: String::from_str(email),
        payment_method_type: String::from_str("card"),
        plan: String::from_str(plan),
        success_url: String::from_str(frontend_host).concat("/purchaseCallback"),
    }
}

} // verus!
