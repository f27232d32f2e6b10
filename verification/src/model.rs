//! The handle tables as a mathematical value, and what each operation of the
//! adapter does to them.

use vstd::prelude::*;
use crate::fields::{with_appended, with_set, without};
use crate::host::HostCallView;
use crate::types::{
    BodyHandle, Entries, Fields, IncomingRequest, IncomingStream, OutgoingResponse,
    OutgoingStream, RequestHandle, ResponseHandle, ResponseOutparam, RESPONSE_OUTPARAM,
};

verus! {

/// The state of the adapter: one table for each kind of handle, the counter
/// that hands out the next handle of that kind, the one downstream request,
/// and the slot for the response that is to become the downstream reply.
pub ghost struct StateView {
    /// The downstream request: the host's request and its body.
    pub incoming_request: (RequestHandle, BodyHandle),
    /// The live header collections.
    pub fields: Map<Fields, Entries>,
    pub next_fields: Fields,
    /// The live incoming streams, each with the body it reads.
    pub incoming_streams: Map<IncomingStream, BodyHandle>,
    pub next_incoming_stream: IncomingStream,
    /// The live responses, each with the host's response and body.
    pub responses: Map<OutgoingResponse, (ResponseHandle, BodyHandle)>,
    pub next_response: OutgoingResponse,
    /// The live outgoing streams, each with the body it writes.
    pub outgoing_streams: Map<OutgoingStream, BodyHandle>,
    pub next_outgoing_stream: OutgoingStream,
    /// The response that is to be sent downstream, if one was designated.
    pub response_outparam: Option<OutgoingResponse>,
}

impl StateView {
    /// The state at the start of an invocation: every table empty, every
    /// counter at zero, no response designated.
    pub open spec fn initial(incoming_request: (RequestHandle, BodyHandle)) -> StateView {
        StateView {
            incoming_request,
            fields: Map::empty(),
            next_fields: 0,
            incoming_streams: Map::empty(),
            next_incoming_stream: 0,
            responses: Map::empty(),
            next_response: 0,
            outgoing_streams: Map::empty(),
            next_outgoing_stream: 0,
            response_outparam: None,
        }
    }

    /// Every live handle was handed out by its counter: it lies below the
    /// counter's next value. A handle is therefore never handed out twice.
    pub open spec fn wf(self) -> bool {
        &&& forall|h: Fields| self.fields.contains_key(h) ==> h < self.next_fields
        &&& forall|h: IncomingStream|
            self.incoming_streams.contains_key(h) ==> h < self.next_incoming_stream
        &&& forall|h: OutgoingResponse| self.responses.contains_key(h) ==> h < self.next_response
        &&& forall|h: OutgoingStream|
            self.outgoing_streams.contains_key(h) ==> h < self.next_outgoing_stream
    }

    /// Whether `handle` is live: its table has an entry for it.
    pub open spec fn live(self, handle: Handle) -> bool {
        match handle {
            Handle::Fields(fields) => self.fields.contains_key(fields),
            Handle::IncomingStream(stream) => self.incoming_streams.contains_key(stream),
            Handle::Response(response) => self.responses.contains_key(response),
            Handle::OutgoingStream(stream) => self.outgoing_streams.contains_key(stream),
        }
    }

    /// Whether `handle` has been handed out: it lies below its counter.
    pub open spec fn issued(self, handle: Handle) -> bool {
        match handle {
            Handle::Fields(fields) => fields < self.next_fields,
            Handle::IncomingStream(stream) => stream < self.next_incoming_stream,
            Handle::Response(response) => response < self.next_response,
            Handle::OutgoingStream(stream) => stream < self.next_outgoing_stream,
        }
    }

    /// Whether the operation is defined in this state. An operation handed a
    /// handle that is not live is a fault of the caller, as is one that
    /// needs a new handle when the counter has run out.
    pub open spec fn allows(self, op: Op) -> bool {
        match op {
            Op::NewFields { entries } => self.next_fields < u32::MAX,
            Op::DropFields { fields } => self.fields.contains_key(fields),
            Op::FieldsGet { fields, name } => self.fields.contains_key(fields),
            Op::FieldsSet { fields, name, values } => self.fields.contains_key(fields),
            Op::FieldsDelete { fields, name } => self.fields.contains_key(fields),
            Op::FieldsAppend { fields, name, value } => self.fields.contains_key(fields),
            Op::FieldsEntries { fields } => self.fields.contains_key(fields),
            Op::FieldsClone { fields } => self.fields.contains_key(fields) && self.next_fields
                < u32::MAX,
            Op::IncomingRequestConsume { request } => request == self.incoming_request.0
                && self.next_incoming_stream < u32::MAX,
            Op::FinishIncomingStream { stream } => self.incoming_streams.contains_key(stream),
            Op::FinishOutgoingStream { stream } => true,
            Op::DropIncomingRequest { request } => true,
            Op::Read { stream } => self.incoming_streams.contains_key(stream),
            Op::DropInputStream { stream } => self.incoming_streams.contains_key(stream),
            Op::OutgoingResponseCalls { headers } => self.fields.contains_key(headers),
            Op::NewOutgoingResponse { response, body } => self.next_response < u32::MAX,
            Op::OutgoingResponseWrite { response } => self.responses.contains_key(response)
                && self.next_outgoing_stream < u32::MAX,
            Op::DropOutgoingResponse { response } => self.responses.contains_key(response),
            Op::SetResponseOutparam { designated } => true,
            Op::DropResponseOutparam { outparam } => outparam == RESPONSE_OUTPARAM && (
            self.response_outparam matches Some(designated) ==> self.responses.contains_key(
                designated,
            )),
            Op::Write { stream } => self.outgoing_streams.contains_key(stream),
            Op::DropOutputStream { stream } => self.outgoing_streams.contains_key(stream),
        }
    }

    /// The state after the operation, where the state allows it.
    pub open spec fn after(self, op: Op) -> StateView {
        match op {
            Op::NewFields { entries } => self.new_fields(entries),
            Op::DropFields { fields } => self.drop_fields(fields),
            Op::FieldsGet { fields, name } => self,
            Op::FieldsSet { fields, name, values } => self.set_entries(
                fields,
                with_set(self.fields[fields], name, values),
            ),
            Op::FieldsDelete { fields, name } => self.set_entries(
                fields,
                without(self.fields[fields], name),
            ),
            Op::FieldsAppend { fields, name, value } => self.set_entries(
                fields,
                with_appended(self.fields[fields], name, value),
            ),
            Op::FieldsEntries { fields } => self,
            Op::FieldsClone { fields } => self.new_fields(self.fields[fields]),
            Op::IncomingRequestConsume { request } => self.new_incoming_stream(
                self.incoming_request.1,
            ),
            Op::FinishIncomingStream { stream } => self.drop_incoming_stream(stream),
            Op::FinishOutgoingStream { stream } => self,
            Op::DropIncomingRequest { request } => self,
            Op::Read { stream } => self,
            Op::DropInputStream { stream } => self.drop_incoming_stream(stream),
            Op::OutgoingResponseCalls { headers } => self,
            Op::NewOutgoingResponse { response, body } => self.new_response(response, body),
            Op::OutgoingResponseWrite { response } => self.new_outgoing_stream(
                self.responses[response].1,
            ),
            Op::DropOutgoingResponse { response } => self.drop_response(response),
            Op::SetResponseOutparam { designated } => match designated {
                Some(response) => self.set_outparam(Some(response)),
                None => self,
            },
            Op::DropResponseOutparam { outparam } => self.set_outparam(None),
            Op::Write { stream } => self,
            Op::DropOutputStream { stream } => self.drop_outgoing_stream(stream),
        }
    }

    /// The state after a sequence of operations, carried out in order, or
    /// `None` where one of them is not allowed by the state it meets.
    pub open spec fn run(self, ops: Seq<Op>) -> Option<StateView>
        decreases ops.len(),
    {
        if ops.len() == 0 {
            Some(self)
        } else {
            match self.run(ops.drop_last()) {
                Some(state) => if state.allows(ops.last()) {
                    Some(state.after(ops.last()))
                } else {
                    None
                },
                None => None,
            }
        }
    }

    /// A new header collection with the given pairs, under the next handle.
    pub open spec fn new_fields(self, entries: Entries) -> StateView {
        StateView {
            fields: self.fields.insert(self.next_fields, entries),
            next_fields: (self.next_fields + 1) as u32,
            ..self
        }
    }

    /// The collection `fields` now holds `entries`.
    pub open spec fn set_entries(self, fields: Fields, entries: Entries) -> StateView {
        StateView { fields: self.fields.insert(fields, entries), ..self }
    }

    /// The collection `fields` is gone.
    pub open spec fn drop_fields(self, fields: Fields) -> StateView {
        StateView { fields: self.fields.remove(fields), ..self }
    }

    /// A new incoming stream on `body`, under the next handle.
    pub open spec fn new_incoming_stream(self, body: BodyHandle) -> StateView {
        StateView {
            incoming_streams: self.incoming_streams.insert(self.next_incoming_stream, body),
            next_incoming_stream: (self.next_incoming_stream + 1) as u32,
            ..self
        }
    }

    /// The incoming stream `stream` is gone.
    pub open spec fn drop_incoming_stream(self, stream: IncomingStream) -> StateView {
        StateView { incoming_streams: self.incoming_streams.remove(stream), ..self }
    }

    /// A new response for the host's `response` and `body`, under the next
    /// handle.
    pub open spec fn new_response(self, response: ResponseHandle, body: BodyHandle) -> StateView {
        StateView {
            responses: self.responses.insert(self.next_response, (response, body)),
            next_response: (self.next_response + 1) as u32,
            ..self
        }
    }

    /// The response `response` is gone.
    pub open spec fn drop_response(self, response: OutgoingResponse) -> StateView {
        StateView { responses: self.responses.remove(response), ..self }
    }

    /// A new outgoing stream on `body`, under the next handle.
    pub open spec fn new_outgoing_stream(self, body: BodyHandle) -> StateView {
        StateView {
            outgoing_streams: self.outgoing_streams.insert(self.next_outgoing_stream, body),
            next_outgoing_stream: (self.next_outgoing_stream + 1) as u32,
            ..self
        }
    }

    /// The outgoing stream `stream` is gone.
    pub open spec fn drop_outgoing_stream(self, stream: OutgoingStream) -> StateView {
        StateView { outgoing_streams: self.outgoing_streams.remove(stream), ..self }
    }

    /// The outparam slot now holds `response`.
    pub open spec fn set_outparam(self, response: Option<OutgoingResponse>) -> StateView {
        StateView { response_outparam: response, ..self }
    }

    /// The call that sends the designated response downstream, whole and at
    /// once; no call where no response is designated.
    pub open spec fn downstream_send(self) -> Option<HostCallView> {
        match self.response_outparam {
            Some(response) => Some(
                HostCallView::SendDownstream {
                    response: self.responses[response].0,
                    body: self.responses[response].1,
                    streaming: false,
                },
            ),
            None => None,
        }
    }
}

/// A handle together with its kind.
pub ghost enum Handle {
    Fields(Fields),
    IncomingStream(IncomingStream),
    Response(OutgoingResponse),
    OutgoingStream(OutgoingStream),
}

/// One operation of the adapter, with the arguments that matter to the
/// handle tables.
#[allow(inconsistent_fields)]
pub ghost enum Op {
    /// Create a header collection; reading the request headers does this
    /// with the pairs that the host reported.
    NewFields { entries: Entries },
    DropFields { fields: Fields },
    FieldsGet { fields: Fields, name: Seq<char> },
    FieldsSet { fields: Fields, name: Seq<char>, values: Seq<Seq<char>> },
    FieldsDelete { fields: Fields, name: Seq<char> },
    FieldsAppend { fields: Fields, name: Seq<char>, value: Seq<char> },
    FieldsEntries { fields: Fields },
    FieldsClone { fields: Fields },
    IncomingRequestConsume { request: IncomingRequest },
    FinishIncomingStream { stream: IncomingStream },
    FinishOutgoingStream { stream: OutgoingStream },
    DropIncomingRequest { request: IncomingRequest },
    /// Read from an incoming stream, blocking or not.
    Read { stream: IncomingStream },
    DropInputStream { stream: IncomingStream },
    /// Work out the host calls that set up a response with the pairs of
    /// `headers`.
    OutgoingResponseCalls { headers: Fields },
    NewOutgoingResponse { response: ResponseHandle, body: BodyHandle },
    OutgoingResponseWrite { response: OutgoingResponse },
    DropOutgoingResponse { response: OutgoingResponse },
    /// Hand over a response, or a failure in place of one (`None`).
    SetResponseOutparam { designated: Option<OutgoingResponse> },
    DropResponseOutparam { outparam: ResponseOutparam },
    /// Write to an outgoing stream, blocking or not.
    Write { stream: OutgoingStream },
    DropOutputStream { stream: OutgoingStream },
}

impl Op {
    /// Whether the operation is handed the header collection `fields`.
    pub open spec fn uses_fields(self, fields: Fields) -> bool {
        match self {
            Op::DropFields { fields: f } => f == fields,
            Op::FieldsGet { fields: f, name } => f == fields,
            Op::FieldsSet { fields: f, name, values } => f == fields,
            Op::FieldsDelete { fields: f, name } => f == fields,
            Op::FieldsAppend { fields: f, name, value } => f == fields,
            Op::FieldsEntries { fields: f } => f == fields,
            Op::FieldsClone { fields: f } => f == fields,
            Op::OutgoingResponseCalls { headers } => headers == fields,
            _ => false,
        }
    }

    /// Whether the operation changes or removes the header collection
    /// `fields`.
    pub open spec fn changes_fields(self, fields: Fields) -> bool {
        match self {
            Op::DropFields { fields: f } => f == fields,
            Op::FieldsSet { fields: f, name, values } => f == fields,
            Op::FieldsDelete { fields: f, name } => f == fields,
            Op::FieldsAppend { fields: f, name, value } => f == fields,
            _ => false,
        }
    }

    /// Whether the operation is handed the incoming stream `stream`.
    pub open spec fn uses_incoming_stream(self, stream: IncomingStream) -> bool {
        match self {
            Op::FinishIncomingStream { stream: s } => s == stream,
            Op::Read { stream: s } => s == stream,
            Op::DropInputStream { stream: s } => s == stream,
            _ => false,
        }
    }

    /// Whether the operation is handed the response `response` and needs it
    /// live. Designating a response is not among them: the slot takes any
    /// handle, and the response is looked up when the reply is finalized.
    pub open spec fn uses_response(self, response: OutgoingResponse) -> bool {
        match self {
            Op::OutgoingResponseWrite { response: r } => r == response,
            Op::DropOutgoingResponse { response: r } => r == response,
            _ => false,
        }
    }

    /// Whether the operation is handed the outgoing stream `stream` and
    /// needs it live. Finishing an outgoing stream does nothing and needs
    /// nothing.
    pub open spec fn uses_outgoing_stream(self, stream: OutgoingStream) -> bool {
        match self {
            Op::Write { stream: s } => s == stream,
            Op::DropOutputStream { stream: s } => s == stream,
            _ => false,
        }
    }

    /// Whether the operation is handed `handle` and needs it live.
    pub open spec fn uses(self, handle: Handle) -> bool {
        match handle {
            Handle::Fields(fields) => self.uses_fields(fields),
            Handle::IncomingStream(stream) => self.uses_incoming_stream(stream),
            Handle::Response(response) => self.uses_response(response),
            Handle::OutgoingStream(stream) => self.uses_outgoing_stream(stream),
        }
    }

    /// Whether the operation removes `handle` from its table.
    pub open spec fn drops(self, handle: Handle) -> bool {
        match self {
            Op::DropFields { fields } => handle == Handle::Fields(fields),
            Op::FinishIncomingStream { stream } => handle == Handle::IncomingStream(stream),
            Op::DropInputStream { stream } => handle == Handle::IncomingStream(stream),
            Op::DropOutgoingResponse { response } => handle == Handle::Response(response),
            Op::DropOutputStream { stream } => handle == Handle::OutgoingStream(stream),
            _ => false,
        }
    }

    /// Whether the operation designates a response as the downstream reply.
    pub open spec fn designates(self) -> bool {
        self matches Op::SetResponseOutparam { designated: Some(_) }
    }
}

/// What one operation does to a list of pairs that stands for the header
/// collection `fields`: setting, deleting and appending on that collection
/// act on the list, every other operation leaves it as it is.
pub open spec fn replay_one(entries: Entries, fields: Fields, op: Op) -> Entries {
    match op {
        Op::FieldsSet { fields: f, name, values } => if f == fields {
            with_set(entries, name, values)
        } else {
            entries
        },
        Op::FieldsDelete { fields: f, name } => if f == fields {
            without(entries, name)
        } else {
            entries
        },
        Op::FieldsAppend { fields: f, name, value } => if f == fields {
            with_appended(entries, name, value)
        } else {
            entries
        },
        _ => entries,
    }
}

/// A sequence of operations replayed, in order, on a list of pairs that
/// stands for the header collection `fields`.
pub open spec fn replay(entries: Entries, fields: Fields, ops: Seq<Op>) -> Entries
    decreases ops.len(),
{
    if ops.len() == 0 {
        entries
    } else {
        replay_one(replay(entries, fields, ops.drop_last()), fields, ops.last())
    }
}

/// The pairs that the host's report of the request headers stands for: one
/// pair for each name, in order; a name without a value has the empty value.
pub open spec fn reported_headers(headers: Seq<(String, Option<String>)>) -> Entries {
    Seq::new(
        headers.len(),
        |i: int|
            (
                headers[i].0@,
                match headers[i].1 {
                    Some(value) => value@,
                    None => Seq::empty(),
                },
            ),
    )
}

} // verus!
