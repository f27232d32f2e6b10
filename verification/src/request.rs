//! What the adapter reads off the downstream request once the host has
//! reported it as text.

use vstd::prelude::*;
use crate::types::{HostError, Method, MethodView, Scheme, SchemeView};
use crate::uri::{UriParts, UriView, parsed_uri, split_uri};

verus! {

/// Whether `text` is exactly `literal`.
pub fn text_is(text: &String, literal: &str) -> (same: bool)
    ensures
        same == (text@ == literal@),
{
    let owned: String = literal.to_owned();
    *text == owned
}

/// The method that the host's textual method stands for. The nine standard
/// methods are recognised in upper case only; any other text is kept as it is.
pub open spec fn method_of(text: Seq<char>) -> MethodView {
    if text == "GET"@ {
        MethodView::Get
    } else if text == "POST"@ {
        MethodView::Post
    } else if text == "PUT"@ {
        MethodView::Put
    } else if text == "DELETE"@ {
        MethodView::Delete
    } else if text == "HEAD"@ {
        MethodView::Head
    } else if text == "OPTIONS"@ {
        MethodView::Options
    } else if text == "PATCH"@ {
        MethodView::Patch
    } else if text == "TRACE"@ {
        MethodView::Trace
    } else if text == "CONNECT"@ {
        MethodView::Connect
    } else {
        MethodView::Other(text)
    }
}

/// Maps the method text reported by the host to a `Method`.
pub fn incoming_request_method(method: String) -> (m: Method)
    ensures
        m@ == method_of(method@),
{
    if text_is(&method, "GET") {
        Method::Get
    } else if text_is(&method, "POST") {
        Method::Post
    } else if text_is(&method, "PUT") {
        Method::Put
    } else if text_is(&method, "DELETE") {
        Method::Delete
    } else if text_is(&method, "HEAD") {
        Method::Head
    } else if text_is(&method, "OPTIONS") {
        Method::Options
    } else if text_is(&method, "PATCH") {
        Method::Patch
    } else if text_is(&method, "TRACE") {
        Method::Trace
    } else if text_is(&method, "CONNECT") {
        Method::Connect
    } else {
        Method::Other(method)
    }
}

/// The scheme that a scheme text stands for: `http` and `https` have their
/// own variants, any other text is kept as it is.
pub open spec fn scheme_of(text: Seq<char>) -> SchemeView {
    if text == "http"@ {
        SchemeView::Http
    } else if text == "https"@ {
        SchemeView::Https
    } else {
        SchemeView::Other(text)
    }
}

/// The query of a parsed URI; a URI without a query has the empty query.
pub open spec fn query_of(uri: UriView) -> Seq<char> {
    match uri.query {
        Some(query) => query,
        None => Seq::empty(),
    }
}

/// The authority of a URI: its host, or the empty text where the URI does
/// not parse or has no host.
pub open spec fn authority_of(parsed: Option<UriView>) -> Seq<char> {
    match parsed {
        Some(uri) => match uri.host {
            Some(host) => host,
            None => Seq::empty(),
        },
        None => Seq::empty(),
    }
}

/// The scheme of a request, from whether the host failed to report its URI
/// and what the URI parsed as. No scheme is known where the host failed or
/// the URI does not parse.
pub open spec fn known_scheme(host_failed: bool, parsed: Option<UriView>) -> Option<SchemeView> {
    if host_failed {
        None
    } else {
        match parsed {
            Some(uri) => Some(scheme_of(uri.scheme)),
            None => None,
        }
    }
}

/// The view of an optional scheme.
pub open spec fn optional_scheme(scheme: Option<Scheme>) -> Option<SchemeView> {
    match scheme {
        Some(s) => Some(s@),
        None => None,
    }
}

impl UriParts {
    /// The path.
    pub fn request_path(&self) -> (path: String)
        ensures
            path@ == self@.path,
    {
        self.path.clone()
    }

    /// The query, empty where the URI has none.
    pub fn request_query(&self) -> (query: String)
        ensures
            query@ == query_of(self@),
    {
        match &self.query {
            Some(query) => query.clone(),
            None => String::new(),
        }
    }

    /// The scheme.
    pub fn request_scheme(&self) -> (scheme: Scheme)
        ensures
            scheme@ == scheme_of(self@.scheme),
    {
        if text_is(&self.scheme, "http") {
            Scheme::Http
        } else if text_is(&self.scheme, "https") {
            Scheme::Https
        } else {
            Scheme::Other(self.scheme.clone())
        }
    }

    /// The authority: the host, empty where the URI has none.
    pub fn request_authority(&self) -> (authority: String)
        ensures
            authority@ == authority_of(Some(self@)),
    {
        match &self.host {
            Some(host) => host.clone(),
            None => String::new(),
        }
    }
}

/// The path of the request URI `uri`, or `None` where `uri` does not parse.
pub fn incoming_request_path(uri: &str) -> (path: Option<String>)
    ensures
        path matches Some(p) ==> parsed_uri(uri@) matches Some(u) && p@ == u.path,
        path is None <==> parsed_uri(uri@) is None,
{
    match split_uri(uri) {
        Some(parts) => Some(parts.request_path()),
        None => None,
    }
}

/// The query of the request URI `uri`, empty where it has none, or `None`
/// where `uri` does not parse.
pub fn incoming_request_query(uri: &str) -> (query: Option<String>)
    ensures
        query matches Some(q) ==> parsed_uri(uri@) matches Some(u) && q@ == query_of(u),
        query is None <==> parsed_uri(uri@) is None,
{
    match split_uri(uri) {
        Some(parts) => Some(parts.request_query()),
        None => None,
    }
}

/// The scheme of the request, from what the host reported as its URI. `None`
/// means that no scheme is known: the host failed, or the URI does not parse.
pub fn incoming_request_scheme(uri: &Result<String, HostError>) -> (scheme: Option<Scheme>)
    ensures
        optional_scheme(scheme) == match *uri {
            Ok(text) => known_scheme(false, parsed_uri(text@)),
            Err(_) => known_scheme(true, None),
        },
{
    match uri {
        Ok(text) => match split_uri(text.as_str()) {
            Some(parts) => Some(parts.request_scheme()),
            None => None,
        },
        Err(_) => None,
    }
}

/// The authority of the request URI `uri`: its host, or the empty string
/// where `uri` does not parse or has no host.
pub fn incoming_request_authority(uri: &str) -> (authority: String)
    ensures
        authority@ == authority_of(parsed_uri(uri@)),
{
    match split_uri(uri) {
        Some(parts) => parts.request_authority(),
        None => String::new(),
    }
}

} // verus!
