//! The calls that the adapter asks of the host, and a model of what the host
//! holds for the reply.
//!
//! The adapter never talks to the host itself. Each operation that needs the
//! host returns the calls to make, in order, as values of `HostCall`; the
//! caller carries them out and hands back what the host answered.

use vstd::prelude::*;
use crate::types::{BodyHandle, Entries, ResponseHandle, StatusCode};

verus! {

/// The end of a body at which written bytes are placed.
#[derive(Clone, Copy, Debug, PartialEq, Eq)]
pub enum BodyWriteEnd {
    Back,
    Front,
}

/// One call to the host, with its arguments.
#[derive(Clone, Debug, PartialEq, Eq)]
pub enum HostCall {
    /// Set the status of a response.
    ResponseStatusSet { response: ResponseHandle, status: StatusCode },
    /// Add one header to a response, after those it has.
    ResponseHeaderAppend { response: ResponseHandle, name: String, value: String },
    /// Read at most `max_len` bytes from a body.
    BodyRead { body: BodyHandle, max_len: u32 },
    /// Write bytes to a body at the given end; the host answers with the
    /// number of bytes it took.
    BodyWrite { body: BodyHandle, bytes: Vec<u8>, end: BodyWriteEnd },
    /// Send a response with a body to the downstream client.
    SendDownstream { response: ResponseHandle, body: BodyHandle, streaming: bool },
}

/// A host call as a mathematical value.
pub ghost enum HostCallView {
    ResponseStatusSet { response: ResponseHandle, status: StatusCode },
    ResponseHeaderAppend { response: ResponseHandle, name: Seq<char>, value: Seq<char> },
    BodyRead { body: BodyHandle, max_len: u32 },
    BodyWrite { body: BodyHandle, bytes: Seq<u8>, end: BodyWriteEnd },
    SendDownstream { response: ResponseHandle, body: BodyHandle, streaming: bool },
}

impl View for HostCall {
    type V = HostCallView;

    open spec fn view(&self) -> HostCallView {
        match *self {
            HostCall::ResponseStatusSet { response, status } => HostCallView::ResponseStatusSet {
                response,
                status,
            },
            HostCall::ResponseHeaderAppend {
                response,
                name,
                value,
            } => HostCallView::ResponseHeaderAppend { response, name: name@, value: value@ },
            HostCall::BodyRead { body, max_len } => HostCallView::BodyRead { body, max_len },
            HostCall::BodyWrite { body, bytes, end } => HostCallView::BodyWrite {
                body,
                bytes: bytes@,
                end,
            },
            HostCall::SendDownstream {
                response,
                body,
                streaming,
            } => HostCallView::SendDownstream { response, body, streaming },
        }
    }
}

/// The calls that a vector of host calls stands for.
pub open spec fn calls_view(calls: Seq<HostCall>) -> Seq<HostCallView> {
    Seq::new(calls.len(), |i: int| calls[i]@)
}

/// The view of an optional host call.
pub open spec fn optional_call(call: Option<HostCall>) -> Option<HostCallView> {
    match call {
        Some(c) => Some(c@),
        None => None,
    }
}

/// The calls that give a host response its status and its headers: one call
/// for the status, then one for each header, in the order of `headers`.
pub open spec fn response_setup(
    response: ResponseHandle,
    status: StatusCode,
    headers: Entries,
) -> Seq<HostCallView> {
    Seq::new(
        headers.len() + 1,
        |i: int|
            if i == 0 {
                HostCallView::ResponseStatusSet { response, status }
            } else {
                HostCallView::ResponseHeaderAppend {
                    response,
                    name: headers[i - 1].0,
                    value: headers[i - 1].1,
                }
            },
    )
}

/// What the host holds for one response.
pub ghost struct HostResponse {
    pub status: StatusCode,
    pub headers: Entries,
}

/// A reply as the downstream client receives it.
pub ghost struct Reply {
    pub status: StatusCode,
    pub headers: Entries,
    pub body: Seq<u8>,
}

/// A model of the host's side of the reply: the responses and bodies it
/// holds, and the replies it has sent downstream, oldest first.
///
/// The model reads each call as its name says. It is what the laws of this
/// library about replies are stated against; the host itself is not verified.
pub ghost struct HostView {
    pub responses: Map<ResponseHandle, HostResponse>,
    pub bodies: Map<BodyHandle, Seq<u8>>,
    pub sent: Seq<Reply>,
}

/// One call together with the number of bytes the host took, which matters
/// for a write only.
pub ghost struct Exchange {
    pub call: HostCallView,
    pub taken: nat,
}

impl HostView {
    /// A response as the host creates it: no headers yet.
    pub open spec fn is_new_response(self, response: ResponseHandle) -> bool {
        self.responses.contains_key(response) && self.responses[response].headers.len() == 0
    }

    /// A body as the host creates it: no bytes yet.
    pub open spec fn is_new_body(self, body: BodyHandle) -> bool {
        self.bodies.contains_key(body) && self.bodies[body].len() == 0
    }

    /// The host after one call of which it took `taken` bytes. A call that
    /// names a response or a body that the host does not hold changes nothing.
    pub open spec fn after(self, exchange: Exchange) -> HostView {
        match exchange.call {
            HostCallView::ResponseStatusSet { response, status } => {
                if self.responses.contains_key(response) {
                    HostView {
                        responses: self.responses.insert(
                            response,
                            HostResponse { status, headers: self.responses[response].headers },
                        ),
                        ..self
                    }
                } else {
                    self
                }
            },
            HostCallView::ResponseHeaderAppend { response, name, value } => {
                if self.responses.contains_key(response) {
                    HostView {
                        responses: self.responses.insert(
                            response,
                            HostResponse {
                                status: self.responses[response].status,
                                headers: self.responses[response].headers.push((name, value)),
                            },
                        ),
                        ..self
                    }
                } else {
                    self
                }
            },
            HostCallView::BodyRead { body, max_len } => self,
            HostCallView::BodyWrite { body, bytes, end } => {
                if self.bodies.contains_key(body) && exchange.taken <= bytes.len() {
                    let taken = bytes.take(exchange.taken as int);
                    HostView {
                        bodies: self.bodies.insert(
                            body,
                            match end {
                                BodyWriteEnd::Back => self.bodies[body] + taken,
                                BodyWriteEnd::Front => taken + self.bodies[body],
                            },
                        ),
                        ..self
                    }
                } else {
                    self
                }
            },
            HostCallView::SendDownstream { response, body, streaming } => {
                if self.responses.contains_key(response) && self.bodies.contains_key(body) {
                    HostView {
                        sent: self.sent.push(
                            Reply {
                                status: self.responses[response].status,
                                headers: self.responses[response].headers,
                                body: self.bodies[body],
                            },
                        ),
                        ..self
                    }
                } else {
                    self
                }
            },
        }
    }

    /// The host after a sequence of calls, carried out in order.
    pub open spec fn after_all(self, exchanges: Seq<Exchange>) -> HostView
        decreases exchanges.len(),
    {
        if exchanges.len() == 0 {
            self
        } else {
            self.after_all(exchanges.drop_last()).after(exchanges.last())
        }
    }
}

/// Calls of which the number of bytes taken does not matter, as exchanges.
pub open spec fn exchanges_of(calls: Seq<HostCallView>) -> Seq<Exchange> {
    Seq::new(calls.len(), |i: int| Exchange { call: calls[i], taken: 0 })
}

} // verus!
