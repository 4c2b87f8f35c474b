//! The transport client: connection configuration and authenticated
//! header construction.
//!
//! A client is created once per logical session and holds no mutable
//! state: the base URL and protocol version are fixed at construction,
//! the credential is immutable for the client's lifetime. The network
//! round trips themselves are the embedding application's; everything
//! it sends is assembled and checked here.

use vstd::prelude::*;
use vstd::string::*;
use crate::errors::Error;

verus! {

/// Whether `c` may appear in an HTTP header value: horizontal tab, or
/// anything that is not a C0 control character or DEL. Characters
/// outside ASCII are carried in bytes that a header value accepts.
pub open spec fn is_valid_header_char(c: char) -> bool {
    c as u32 == 9 || (c as u32 >= 32 && c as u32 != 127)
}

/// Whether every character of `s` may appear in an HTTP header value.
pub open spec fn valid_header_value(s: Seq<char>) -> bool {
    forall|i: int| 0 <= i < s.len() ==> is_valid_header_char(s[i])
}

/// The text sent as the authorization header for a given credential.
pub open spec fn bearer_value(token: Seq<char>) -> Seq<char> {
    "Bearer "@ + token
}

/// Checks a header value character by character.
pub fn check_header_value(s: &str) -> (r: bool)
    ensures
        r == valid_header_value(s@),
{
    let n = s.unicode_len();
    let mut i: usize = 0;
    while i < n
        invariant
            n == s@.len(),
            i <= n,
            forall|j: int| 0 <= j < i ==> is_valid_header_char(s@[j]),
        decreases n - i,
    {
        let c = s.get_char(i);
        let code = c as u32;
        if !(code == 9 || (code >= 32 && code != 127)) {
            return false;
        }
        i = i + 1;
    }
    true
}

/// The connection configuration: base URL, protocol version and
/// bearer credential. Stateless apart from this configuration, so one
/// client is safe to reuse across many calls.
#[derive(Debug, Clone)]
pub struct Client {
    pub access_token: String,
    pub endpoint: String,
    pub version: String,
}

impl Client {
    /// A client for the remote API root, speaking the one protocol
    /// version this library understands. No request is issued.
    pub fn new(access_token: String) -> (res: Self)
        ensures
            res.access_token@ == access_token@,
            res.endpoint@ == "https://api.intercom.io/"@,
            res.version@ == "2.10"@,
    {
        Client {
            access_token,
            endpoint: "https://api.intercom.io/".to_owned(),
            version: "2.10".to_owned(),
        }
    }

    /// The absolute URL a request for `path` is sent to.
    pub fn request_url(&self, path: &str) -> (url: String)
        ensures
            url@ == self.endpoint@ + "/"@ + path@,
    {
        let mut url = self.endpoint.clone();
        url.append("/");
        url.append(path);
        url
    }

    /// The headers every request carries: `Authorization` with the
    /// bearer credential, and `Intercom-Version`.
    ///
    /// Fails, and only fails, when one of the two values cannot be
    /// encoded as an HTTP header value — that is, when it contains a
    /// control character.
    pub fn build_headers(&self) -> (r: Result<Vec<(String, String)>, Error>)
        ensures
            r is Ok <==> valid_header_value(bearer_value(self.access_token@))
                && valid_header_value(self.version@),
            match r {
                Ok(hs) => {
                    &&& hs@.len() == 2
                    &&& hs@[0].0@ == "Authorization"@
                    &&& hs@[0].1@ == bearer_value(self.access_token@)
                    &&& hs@[1].0@ == "Intercom-Version"@
                    &&& hs@[1].1@ == self.version@
                },
                Err(e) => e is HTTPError,
            },
    {
        let mut bearer: String = "Bearer ".to_owned();
        bearer.append(self.access_token.as_str());
        if !check_header_value(bearer.as_str()) {
            return Err(Error::HTTPError("invalid authorization header value".to_owned()));
        }
        if !check_header_value(self.version.as_str()) {
            return Err(Error::HTTPError("invalid version header value".to_owned()));
        }
        let mut headers: Vec<(String, String)> = Vec::new();
        headers.push(("Authorization".to_owned(), bearer));
        headers.push(("Intercom-Version".to_owned(), self.version.clone()));
        Ok(headers)
    }
}

/// Header failure: a credential with a character that no HTTP header
/// value may hold — a control character such as a newline — makes the
/// authorization value invalid, so [`Client::build_headers`] returns
/// an error rather than panicking.
pub proof fn lemma_header_failure(token: Seq<char>, i: int)
    requires
        0 <= i < token.len(),
        !is_valid_header_char(token[i]),
    ensures
        !valid_header_value(bearer_value(token)),
{
    reveal_strlit("Bearer ");
    assert(bearer_value(token)[7 + i] == token[i]);
}

} // verus!
