//! Typed failure signals. The guard and the callback exchanger raise these
//! signals instead of choosing HTTP status codes themselves; only the
//! rejection translator in `filters` decides the wire-level response.

use vstd::prelude::*;

verus! {

/// Raised when the gateway cannot assemble an HTTP response.
#[derive(Debug)]
pub struct ResponseBuildError;

/// Raised by the callback exchanger when a cookie it needs is absent.
#[derive(Debug)]
pub struct CookieIsMissing;

/// Raised by the session guard when a request carries no live session.
/// `path` is the path the caller originally asked for.
#[derive(Debug)]
pub struct UnauthenticatedUser {
    pub path: String,
}

/// A failure signal, distinct from an HTTP response; the rejection
/// translator resolves every one of these to a concrete response.
#[derive(Debug)]
pub enum Rejection {
    /// No route matched the request.
    NotFound,
    /// A cookie the exchanger needs is missing.
    CookieMissing(CookieIsMissing),
    /// The request carries no live session.
    Unauthenticated(UnauthenticatedUser),
    /// A response could not be assembled.
    Build(ResponseBuildError),
    /// Any other, unclassified failure.
    Other,
}

/// The mathematical image of a failure signal.
pub enum RejectionV {
    NotFound,
    CookieMissing,
    Unauthenticated(Seq<char>),
    Build,
    Other,
}

impl View for Rejection {
    type V = RejectionV;

    open spec fn view(&self) -> RejectionV {
        match self {
            Rejection::NotFound => RejectionV::NotFound,
            Rejection::CookieMissing(_) => RejectionV::CookieMissing,
            Rejection::Unauthenticated(u) => RejectionV::Unauthenticated(u.path@),
            Rejection::Build(_) => RejectionV::Build,
            Rejection::Other => RejectionV::Other,
        }
    }
}

/// Which way a token exchange with the provider went wrong, carrying the
/// provider-supplied detail the diagnostic body quotes.
pub enum ExchangeErrorDetail {
    /// The authorization server returned an error response; holds its text.
    Server(String),
    /// The server's response could not be parsed; holds the raw response
    /// decoded as text.
    Parse(String),
    /// The client library reported some other error.
    Other,
    /// The request itself failed, e.g. the server was unreachable.
    Request,
}

/// The mathematical image of an exchange error detail.
pub enum ExchangeErrorDetailV {
    Server(Seq<char>),
    Parse(Seq<char>),
    Other,
    Request,
}

impl View for ExchangeErrorDetail {
    type V = ExchangeErrorDetailV;

    open spec fn view(&self) -> ExchangeErrorDetailV {
        match self {
            ExchangeErrorDetail::Server(s) => ExchangeErrorDetailV::Server(s@),
            ExchangeErrorDetail::Parse(s) => ExchangeErrorDetailV::Parse(s@),
            ExchangeErrorDetail::Other => ExchangeErrorDetailV::Other,
            ExchangeErrorDetail::Request => ExchangeErrorDetailV::Request,
        }
    }
}

/// A failed token exchange: a one-line summary of the failure and the
/// category-specific detail.
pub struct ExchangeFailure {
    pub summary: String,
    pub detail: ExchangeErrorDetail,
}

/// The mathematical image of a failed token exchange.
pub struct ExchangeFailureV {
    pub summary: Seq<char>,
    pub detail: ExchangeErrorDetailV,
}

impl View for ExchangeFailure {
    type V = ExchangeFailureV;

    open spec fn view(&self) -> ExchangeFailureV {
        ExchangeFailureV { summary: self.summary@, detail: self.detail@ }
    }
}

} // verus!
