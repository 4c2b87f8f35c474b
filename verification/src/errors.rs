//! The closed error taxonomy surfaced to callers.

use vstd::prelude::*;

verus! {

/// Every fallible operation of this library returns one of these kinds.
///
/// `NotLoggedIn` is reserved for a client with no configured credential;
/// `HTTPError` wraps any transport-level failure (a network error, a
/// malformed header value, a response body that does not decode) with a
/// human-readable detail string.
#[derive(Debug)]
pub enum Error {
    NotLoggedIn,
    HTTPError(String),
}

impl Error {
    /// A human-readable description, in place of a `Display` impl.
    pub fn message(&self) -> (r: String)
        ensures
            self is NotLoggedIn ==> r@ == "Not logged in"@,
            self is HTTPError ==> r@ == "HTTP request to Intercom failed "@ + self->HTTPError_0@,
    {
        match self {
            Error::NotLoggedIn => "Not logged in".to_owned(),
            Error::HTTPError(detail) => {
                let mut m: String = "HTTP request to Intercom failed ".to_owned();
                m.append(detail.as_str());
                m
            },
        }
    }
}

} // verus!
