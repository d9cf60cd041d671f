//! The gateway's model of an HTTP response: a status code, the two headers
//! the gateway ever sets, and a body.

use vstd::prelude::*;

verus! {

pub const STATUS_OK: u16 = 200;
pub const STATUS_TEMPORARY_REDIRECT: u16 = 307;
pub const STATUS_NOT_FOUND: u16 = 404;
pub const STATUS_INTERNAL_SERVER_ERROR: u16 = 500;

/// An HTTP response the gateway answers with.
pub struct Response {
    pub status: u16,
    /// The `Location` header, when the response redirects.
    pub location: Option<String>,
    /// The `Set-Cookie` header, when the response sets a cookie.
    pub set_cookie: Option<String>,
    pub body: String,
}

/// The mathematical image of a response.
pub struct SpecResponse {
    pub status: int,
    pub location: Option<Seq<char>>,
    pub set_cookie: Option<Seq<char>>,
    pub body: Seq<char>,
}

impl View for Response {
    type V = SpecResponse;

    open spec fn view(&self) -> SpecResponse {
        SpecResponse {
            status: self.status as int,
            location: match self.location {
                Some(l) => Some(l@),
                None => None,
            },
            set_cookie: match self.set_cookie {
                Some(c) => Some(c@),
                None => None,
            },
            body: self.body@,
        }
    }
}

} // verus!
