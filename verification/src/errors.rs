//! The gateway's closed error taxonomy and its centralized mapping to
//! HTTP status codes and plain-text response bodies.
//!
//! Domain errors carry a fixed status and a human-readable body and are
//! returned verbatim.  Infrastructure failures carry their cause for
//! server-side logging only: the mapped body never exposes it.

use vstd::prelude::*;

verus! {

/// Every failure a request handler can report.
#[derive(Debug, PartialEq, Eq)]
pub enum ApiError {
    /// No registered resource matches the request path.
    NotFound,
    /// The path matched but a looked-up row was absent; the body names
    /// the missing resource.
    MissingResource(String),
    /// The path matched a leaf but the HTTP method is not registered there.
    MethodNotAllowed,
    /// A client-fixable request fault; the body says which.
    BadRequest(String),
    /// A `~me` path segment was used without an authenticated caller.
    LoginRequired,
    /// A redirect addressed by id was read or changed without an
    /// authenticated caller.
    RedirectLoginRequired,
    /// A well-formed bearer token that no login session matches.
    InvalidToken,
    /// Login credentials whose password does not match the account.
    IncorrectPassword,
    /// A self-only endpoint was addressed for another user.
    OnlyForMe,
    /// The caller is authenticated but does not own the resource.
    Forbidden,
    /// An infrastructure failure; the payload is logged, never sent.
    Internal(String),
    /// A registered route with no implementation behind it.
    Unimplemented,
}

/// The status code each error maps to.
pub open spec fn status_spec(e: &ApiError) -> u16 {
    match e {
        ApiError::NotFound => 404,
        ApiError::MissingResource(_) => 404,
        ApiError::MethodNotAllowed => 405,
        ApiError::BadRequest(_) => 400,
        ApiError::LoginRequired => 401,
        ApiError::RedirectLoginRequired => 401,
        ApiError::InvalidToken => 400,
        ApiError::IncorrectPassword => 401,
        ApiError::OnlyForMe => 401,
        ApiError::Forbidden => 403,
        ApiError::Internal(_) => 500,
        ApiError::Unimplemented => 500,
    }
}

/// The response body each error maps to.  An `Internal` error collapses
/// to a generic body: its recorded cause is never part of the response.
pub open spec fn body_spec(e: &ApiError) -> Seq<char> {
    match e {
        ApiError::NotFound => "Not Found"@,
        ApiError::MissingResource(what) => what@,
        ApiError::MethodNotAllowed => "Method Not Allowed"@,
        ApiError::BadRequest(msg) => msg@,
        ApiError::LoginRequired => "Login is required for '~me' paths"@,
        ApiError::RedirectLoginRequired => "Login is required to access redirects"@,
        ApiError::InvalidToken => "Unrecognized authentication token"@,
        ApiError::IncorrectPassword => "Incorrect password"@,
        ApiError::OnlyForMe => "This endpoint is only available for ~me"@,
        ApiError::Forbidden => "That's not your redirect"@,
        ApiError::Internal(_) => "Internal Server Error"@,
        ApiError::Unimplemented => "Internal Server Error"@,
    }
}

impl ApiError {
    /// Wraps an infrastructure failure's description for logging.
    pub fn internal(detail: String) -> (e: ApiError)
        ensures
            e == ApiError::Internal(detail),
    {
        ApiError::Internal(detail)
    }

    /// The status code of the response this error becomes.
    pub fn status(&self) -> (s: u16)
        ensures
            s == status_spec(self),
    {
        match self {
            ApiError::NotFound => 404,
            ApiError::MissingResource(_) => 404,
            ApiError::MethodNotAllowed => 405,
            ApiError::BadRequest(_) => 400,
            ApiError::LoginRequired => 401,
            ApiError::RedirectLoginRequired => 401,
            ApiError::InvalidToken => 400,
            ApiError::IncorrectPassword => 401,
            ApiError::OnlyForMe => 401,
            ApiError::Forbidden => 403,
            ApiError::Internal(_) => 500,
            ApiError::Unimplemented => 500,
        }
    }

    /// The plain-text body of the response this error becomes.
    pub fn body_text(&self) -> (b: String)
        ensures
            b@ == body_spec(self),
    {
        match self {
            ApiError::NotFound => String::from_str("Not Found"),
            ApiError::MissingResource(what) => what.clone(),
            ApiError::MethodNotAllowed => String::from_str("Method Not Allowed"),
            ApiError::BadRequest(msg) => msg.clone(),
            ApiError::LoginRequired => String::from_str("Login is required for '~me' paths"),
            ApiError::RedirectLoginRequired => String::from_str(
                "Login is required to access redirects",
            ),
            ApiError::InvalidToken => String::from_str("Unrecognized authentication token"),
            ApiError::IncorrectPassword => String::from_str("Incorrect password"),
            ApiError::OnlyForMe => String::from_str("This endpoint is only available for ~me"),
            ApiError::Forbidden => String::from_str("That's not your redirect"),
            ApiError::Internal(_) => String::from_str("Internal Server Error"),
            ApiError::Unimplemented => String::from_str("Internal Server Error"),
        }
    }
}

/// Infrastructure failure of one pooled query: pool exhaustion/timeout,
/// or a database fault during prepare or execute.  All of them surface
/// to clients as one opaque internal error.
#[derive(Debug, PartialEq, Eq)]
pub enum DbFailure {
    /// The pool did not hand out a connection within its deadline.
    TimedOut,
    /// The database reported an error; the payload describes it.
    Query(String),
}

/// The log line each query failure produces.
pub open spec fn db_message_spec(f: &DbFailure) -> Seq<char> {
    match f {
        DbFailure::TimedOut => "Database connection timed out"@,
        DbFailure::Query(detail) => "Database error: "@ + detail@,
    }
}

impl DbFailure {
    /// Renders the failure for the server-side log.
    pub fn message(&self) -> (m: String)
        ensures
            m@ == db_message_spec(self),
    {
        match self {
            DbFailure::TimedOut => String::from_str("Database connection timed out"),
            DbFailure::Query(detail) => String::from_str("Database error: ").concat(
                detail.as_str(),
            ),
        }
    }

    /// Collapses the failure into the opaque internal error, keeping
    /// the rendered message as the logged cause.
    pub fn into_internal(self) -> (e: ApiError)
        ensures
            e matches ApiError::Internal(d) && d@ == db_message_spec(&self),
    {
        let m = self.message();
        ApiError::Internal(m)
    }
}

} // verus!
