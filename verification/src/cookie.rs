//! The gateway's cookie codec: every cookie the gateway sets carries the same
//! fixed attributes (bounded max-age, HttpOnly, root path, lax same-site).

use vstd::prelude::*;
use vstd::string::StringExecFns;

verus! {

/// The attribute tail shared by every cookie the gateway issues.
pub open spec fn spec_cookie_attrs() -> Seq<char> {
    "; Max-Age=86400; HttpOnly; Path=/; SameSite=Lax"@
}

/// The full `Set-Cookie` header value for a cookie `name` holding `value`.
pub open spec fn spec_cookie(name: Seq<char>, value: Seq<char>) -> Seq<char> {
    name + "="@ + value + spec_cookie_attrs()
}

/// A cookie the gateway sets on the caller's browser.
pub struct Cookie<'a> {
    name: &'a str,
    value: String,
}

impl<'a> Cookie<'a> {
    pub closed spec fn spec_name(&self) -> Seq<char> {
        self.name@
    }

    pub closed spec fn spec_value(&self) -> Seq<char> {
        self.value@
    }

    pub fn new(name: &'a str, value: String) -> (c: Cookie<'a>)
        ensures
            c.spec_name() == name@,
            c.spec_value() == value@,
    {
        Cookie { name, value }
    }

    /// Renders the cookie as a `Set-Cookie` header value with the fixed
    /// attributes.
    pub fn header_value(&self) -> (r: String)
        ensures
            r@ == spec_cookie(self.spec_name(), self.spec_value()),
    {
        let mut s: String = self.name.to_owned();
        s.append("=");
        s.append(self.value.as_str());
        s.append("; Max-Age=86400; HttpOnly; Path=/; SameSite=Lax");
        s
    }
}

} // verus!
