//! The parts of a request URI that the adapter reads, and the call that
//! splits a URI into them.

use vstd::prelude::*;

verus! {

/// The parts of a parsed URI, as text.
#[derive(Clone, Debug, PartialEq, Eq)]
pub struct UriParts {
    /// The scheme, without the `:` that ends it.
    pub scheme: String,
    /// The host, if the URI has one.
    pub host: Option<String>,
    /// The path.
    pub path: String,
    /// What follows the `?`, if the URI has a query.
    pub query: Option<String>,
}

/// The parts of a parsed URI as mathematical values.
pub ghost struct UriView {
    pub scheme: Seq<char>,
    pub host: Option<Seq<char>>,
    pub path: Seq<char>,
    pub query: Option<Seq<char>>,
}

/// The text that an optional string stands for.
pub open spec fn optional_text(text: Option<String>) -> Option<Seq<char>> {
    match text {
        Some(t) => Some(t@),
        None => None,
    }
}

impl View for UriParts {
    type V = UriView;

    open spec fn view(&self) -> UriView {
        UriView {
            scheme: self.scheme@,
            host: optional_text(self.host),
            path: self.path@,
            query: optional_text(self.query),
        }
    }
}

/// The parts that a parser of absolute URLs finds in `uri`, or `None` where
/// it rejects `uri`. The parser is the `url` crate's; what it accepts and how
/// it normalises each part is not restated here.
pub uninterp spec fn parsed_uri(uri: Seq<char>) -> Option<UriView>;

/// Calls `url::Url::parse` on `uri` and copies out what `Url::scheme`,
/// `Url::host`, `Url::path` and `Url::query` report of the parsed URL, the
/// host in its `Display` form.
///
/// Trusted: that the outcome depends on the text of `uri` alone, so that it
/// can be named `parsed_uri(uri@)`. Nothing is claimed about which texts parse
/// or what the parts hold.
#[verifier::external_body]
pub(crate) fn split_uri(uri: &str) -> (parts: Option<UriParts>)
    ensures
        parts matches Some(p) ==> parsed_uri(uri@) == Some(p@),
        parts is None ==> parsed_uri(uri@) is None,
{
    match url::Url::parse(uri) {
        Ok(url) => Some(
            UriParts {
                scheme: url.scheme().to_string(),
                host: url.host().map(|host| host.to_string()),
                path: url.path().to_string(),
                query: url.query().map(|query| query.to_string()),
            },
        ),
        Err(_) => None,
    }
}

} // verus!
