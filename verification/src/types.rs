//! Handles and interface values shared by every part of the adapter.

use vstd::prelude::*;

verus! {

/// Handle of a header collection.
pub type Fields = u32;

/// A header collection, seen as request or response headers.
pub type Headers = u32;

/// A header collection, seen as trailers.
pub type Trailers = u32;

/// Handle of the downstream request.
pub type IncomingRequest = u32;

/// Handle of a readable view of a request body.
pub type IncomingStream = u32;

/// Handle of a response under construction.
pub type OutgoingResponse = u32;

/// Handle of a writable view of a response body.
pub type OutgoingStream = u32;

/// Handle of a readable byte stream; incoming streams are input streams.
pub type InputStream = u32;

/// Handle of a writable byte stream; outgoing streams are output streams.
pub type OutputStream = u32;

/// Identity of the slot through which a handler hands its response back.
pub type ResponseOutparam = u32;

/// An HTTP status code.
pub type StatusCode = u16;

/// The host's name for a request.
pub type RequestHandle = u32;

/// The host's name for a response.
pub type ResponseHandle = u32;

/// The host's name for a body.
pub type BodyHandle = u32;

/// The one value that names the response outparam.
pub const RESPONSE_OUTPARAM: ResponseOutparam = 0;

/// A header collection as a mathematical value: its pairs, in order.
pub type Entries = Seq<(Seq<char>, Seq<char>)>;

/// The pairs that a vector of header entries stands for.
pub open spec fn entries_view(entries: Seq<(String, String)>) -> Entries {
    Seq::new(entries.len(), |i: int| (entries[i].0@, entries[i].1@))
}

/// The texts that a vector of strings stands for.
pub open spec fn strings_view(strings: Seq<String>) -> Seq<Seq<char>> {
    Seq::new(strings.len(), |i: int| strings[i]@)
}

/// A request method.
#[derive(Clone, Debug, PartialEq, Eq)]
pub enum Method {
    Get,
    Head,
    Post,
    Put,
    Delete,
    Connect,
    Options,
    Trace,
    Patch,
    Other(String),
}

/// A request method as a mathematical value.
pub ghost enum MethodView {
    Get,
    Head,
    Post,
    Put,
    Delete,
    Connect,
    Options,
    Trace,
    Patch,
    Other(Seq<char>),
}

impl View for Method {
    type V = MethodView;

    open spec fn view(&self) -> MethodView {
        match *self {
            Method::Get => MethodView::Get,
            Method::Head => MethodView::Head,
            Method::Post => MethodView::Post,
            Method::Put => MethodView::Put,
            Method::Delete => MethodView::Delete,
            Method::Connect => MethodView::Connect,
            Method::Options => MethodView::Options,
            Method::Trace => MethodView::Trace,
            Method::Patch => MethodView::Patch,
            Method::Other(text) => MethodView::Other(text@),
        }
    }
}

/// A URL scheme.
#[derive(Clone, Debug, PartialEq, Eq)]
pub enum Scheme {
    Http,
    Https,
    Other(String),
}

/// A URL scheme as a mathematical value.
pub ghost enum SchemeView {
    Http,
    Https,
    Other(Seq<char>),
}

impl View for Scheme {
    type V = SchemeView;

    open spec fn view(&self) -> SchemeView {
        match *self {
            Scheme::Http => SchemeView::Http,
            Scheme::Https => SchemeView::Https,
            Scheme::Other(text) => SchemeView::Other(text@),
        }
    }
}

/// A structural failure that a handler may report in place of a response.
#[derive(Clone, Debug, PartialEq, Eq)]
pub enum Error {
    InvalidUrl(String),
    TimeoutError(String),
    ProtocolError(String),
    UnexpectedError(String),
}

/// The failure of a stream operation. It carries no detail.
#[derive(Clone, Copy, Debug, PartialEq, Eq)]
pub struct StreamError {}

/// The failure of a host call. It carries no detail.
#[derive(Clone, Copy, Debug, PartialEq, Eq)]
pub struct HostError {}

} // verus!
