//! The response headers that may be attached to a delivered asset.

use vstd::prelude::*;

verus! {

/// An HTTP response header line added when delivering the asset.
#[derive(Debug, Clone)]
pub enum AllowedHeaders {
    /// A Link header value.
    Link(String),
    /// An Authorization header value.
    Authorization(String),
    /// An X-Robots-Tag header value.
    XRobotsTag(String),
}

/// The canonical header line: the header name, a colon and a space, and the
/// value.
pub open spec fn allowed_headers_token(h: AllowedHeaders) -> Seq<char> {
    match h {
        AllowedHeaders::Link(s) => "Link: "@ + s@,
        AllowedHeaders::Authorization(s) => "Authorization: "@ + s@,
        AllowedHeaders::XRobotsTag(s) => "X-Robots-Tag: "@ + s@,
    }
}

impl AllowedHeaders {
    /// The canonical header line of this header.
    pub fn to_token(&self) -> (r: String)
        ensures
            r@ == allowed_headers_token(*self),
    {
        match self {
            AllowedHeaders::Link(s) => {
                let mut t = String::from_str("Link: ");
                t.append(s.as_str());
                t
            },
            AllowedHeaders::Authorization(s) => {
                let mut t = String::from_str("Authorization: ");
                t.append(s.as_str());
                t
            },
            AllowedHeaders::XRobotsTag(s) => {
                let mut t = String::from_str("X-Robots-Tag: ");
                t.append(s.as_str());
                t
            },
        }
    }
}

} // verus!
