//! The handle tables of the adapter and the operations on them.
//!
//! Every operation is a short transaction on one `State`, and exclusive
//! access to it is what `&mut self` asks for. What an operation needs and
//! what it does is `StateView::allows` and `StateView::after` of the `Op`
//! that stands for it. To hand an operation a handle that is not live is a
//! fault of the caller: the operation requires the handle to be live, and
//! `has_fields` and its like let a caller find out first.

use vstd::prelude::*;
use crate::fields::{
    append_value, clone_entries, get_values, remove_name, set_values, values_of, with_appended,
    with_set, without,
};
use crate::host::{BodyWriteEnd, HostCall, HostCallView, calls_view, optional_call, response_setup};
use crate::model::{Op, StateView, reported_headers};
use crate::table::HandleTable;
use crate::types::{
    BodyHandle, Error, Fields, Headers, IncomingRequest, IncomingStream, InputStream,
    OutgoingResponse, OutgoingStream, OutputStream, RequestHandle, ResponseHandle,
    ResponseOutparam, StatusCode, Trailers, entries_view, strings_view,
};

verus! {

/// The handle tables of one invocation.
pub struct State {
    incoming_request: (RequestHandle, BodyHandle),
    fields: HandleTable<Vec<(String, String)>>,
    incoming_streams: HandleTable<BodyHandle>,
    responses: HandleTable<(ResponseHandle, BodyHandle)>,
    outgoing_streams: HandleTable<BodyHandle>,
    response_outparam: Option<OutgoingResponse>,
}

impl View for State {
    type V = StateView;

    closed spec fn view(&self) -> StateView {
        StateView {
            incoming_request: self.incoming_request,
            fields: Map::new(
                |h: Fields| self.fields@.entries.contains_key(h),
                |h: Fields| entries_view(self.fields@.entries[h]@),
            ),
            next_fields: self.fields@.next,
            incoming_streams: self.incoming_streams@.entries,
            next_incoming_stream: self.incoming_streams@.next,
            responses: self.responses@.entries,
            next_response: self.responses@.next,
            outgoing_streams: self.outgoing_streams@.entries,
            next_outgoing_stream: self.outgoing_streams@.next,
            response_outparam: self.response_outparam,
        }
    }
}

/// What a handler hands over as its response: the response, or nothing where
/// it hands over a failure.
pub open spec fn designated_by(response: Result<OutgoingResponse, Error>) -> Option<
    OutgoingResponse,
> {
    match response {
        Ok(handle) => Some(handle),
        Err(_) => None,
    }
}

impl State {
    /// Whether the tables are well formed: see `StateView::wf`.
    pub open spec fn wf(&self) -> bool {
        self@.wf()
    }

    /// The table of header collections is well formed where the state is.
    proof fn lemma_fields_wf(&self)
        requires
            self.wf(),
        ensures
            self.fields.wf(),
    {
        assert forall|handle: u32| self.fields@.entries.contains_key(handle) implies handle
            < self.fields@.next by {
            assert(self@.fields.contains_key(handle));
        }
    }

    /// The state at the start of an invocation, for the downstream request
    /// that the host reported.
    pub fn new(incoming_request: (RequestHandle, BodyHandle)) -> (state: State)
        ensures
            state.wf(),
            state@ == StateView::initial(incoming_request),
    {
        let state = State {
            incoming_request,
            fields: HandleTable::new(),
            incoming_streams: HandleTable::new(),
            responses: HandleTable::new(),
            outgoing_streams: HandleTable::new(),
            response_outparam: None,
        };
        assert(state@.fields =~= Map::empty());
        state
    }

    /// The downstream request: the host's request and its body.
    pub fn incoming_request(&self) -> (request: (RequestHandle, BodyHandle))
        ensures
            request == self@.incoming_request,
    {
        self.incoming_request
    }

    /// Whether `fields` is a live header collection.
    pub fn has_fields(&self, fields: Fields) -> (live: bool)
        ensures
            live == self@.fields.contains_key(fields),
    {
        self.fields.contains(fields)
    }

    /// Whether `stream` is a live incoming stream.
    pub fn has_incoming_stream(&self, stream: IncomingStream) -> (live: bool)
        ensures
            live == self@.incoming_streams.contains_key(stream),
    {
        self.incoming_streams.contains(stream)
    }

    /// Whether `response` is a live response.
    pub fn has_response(&self, response: OutgoingResponse) -> (live: bool)
        ensures
            live == self@.responses.contains_key(response),
    {
        self.responses.contains(response)
    }

    /// Whether `stream` is a live outgoing stream.
    pub fn has_outgoing_stream(&self, stream: OutgoingStream) -> (live: bool)
        ensures
            live == self@.outgoing_streams.contains_key(stream),
    {
        self.outgoing_streams.contains(stream)
    }

    /// The response that is designated as the downstream reply, if any.
    pub fn response_outparam(&self) -> (response: Option<OutgoingResponse>)
        ensures
            response == self@.response_outparam,
    {
        self.response_outparam
    }

    /// Whether a header-collection handle is left to hand out.
    pub fn can_allocate_fields(&self) -> (left: bool)
        ensures
            left == (self@.next_fields < u32::MAX),
    {
        self.fields.can_allocate()
    }

    /// Whether an incoming-stream handle is left to hand out.
    pub fn can_allocate_incoming_stream(&self) -> (left: bool)
        ensures
            left == (self@.next_incoming_stream < u32::MAX),
    {
        self.incoming_streams.can_allocate()
    }

    /// Whether a response handle is left to hand out.
    pub fn can_allocate_response(&self) -> (left: bool)
        ensures
            left == (self@.next_response < u32::MAX),
    {
        self.responses.can_allocate()
    }

    /// Whether an outgoing-stream handle is left to hand out.
    pub fn can_allocate_outgoing_stream(&self) -> (left: bool)
        ensures
            left == (self@.next_outgoing_stream < u32::MAX),
    {
        self.outgoing_streams.can_allocate()
    }

    /// Creates a header collection that holds `entries`, in their order, and
    /// returns its handle.
    pub fn new_fields(&mut self, entries: Vec<(String, String)>) -> (fields: Fields)
        requires
            old(self).wf(),
            old(self)@.allows(Op::NewFields { entries: entries_view(entries@) }),
        ensures
            final(self).wf(),
            fields == old(self)@.next_fields,
            !old(self)@.fields.contains_key(fields),
            final(self)@ == old(self)@.after(Op::NewFields { entries: entries_view(entries@) }),
    {
        proof {
            self.lemma_fields_wf();
        }
        let fields: Fields = self.fields.allocate();
        self.fields.insert(fields, entries);
        assert(self@.fields =~= old(self)@.fields.insert(fields, entries_view(entries@)));
        fields
    }

    /// Removes the header collection `fields`.
    pub fn drop_fields(&mut self, fields: Fields)
        requires
            old(self).wf(),
            old(self)@.allows(Op::DropFields { fields }),
        ensures
            final(self).wf(),
            final(self)@ == old(self)@.after(Op::DropFields { fields }),
    {
        proof {
            self.lemma_fields_wf();
        }
        self.fields.remove(fields);
        assert(self@.fields =~= old(self)@.fields.remove(fields));
    }

    /// All values stored under `name` in the collection `fields`, in order.
    pub fn fields_get(&self, fields: Fields, name: String) -> (values: Vec<String>)
        requires
            self.wf(),
            self@.allows(Op::FieldsGet { fields, name: name@ }),
        ensures
            strings_view(values@) == values_of(self@.fields[fields], name@),
    {
        get_values(self.fields.get(fields), &name)
    }

    /// Sets `name` to `value` in the collection `fields`: every pair stored
    /// under `name` leaves, then one pair for each of `value` is added at the
    /// end, in order.
    pub fn fields_set(&mut self, fields: Fields, name: String, value: Vec<String>)
        requires
            old(self).wf(),
            old(self)@.allows(
                Op::FieldsSet { fields, name: name@, values: strings_view(value@) },
            ),
        ensures
            final(self).wf(),
            final(self)@ == old(self)@.after(
                Op::FieldsSet { fields, name: name@, values: strings_view(value@) },
            ),
    {
        proof {
            self.lemma_fields_wf();
        }
        let mut entries = self.fields.remove(fields);
        set_values(&mut entries, &name, value);
        self.fields.insert(fields, entries);
        assert(self@.fields =~= old(self)@.fields.insert(
            fields,
            with_set(old(self)@.fields[fields], name@, strings_view(value@)),
        ));
    }

    /// Removes every pair stored under `name` from the collection `fields`.
    pub fn fields_delete(&mut self, fields: Fields, name: String)
        requires
            old(self).wf(),
            old(self)@.allows(Op::FieldsDelete { fields, name: name@ }),
        ensures
            final(self).wf(),
            final(self)@ == old(self)@.after(Op::FieldsDelete { fields, name: name@ }),
    {
        proof {
            self.lemma_fields_wf();
        }
        let mut entries = self.fields.remove(fields);
        remove_name(&mut entries, &name);
        self.fields.insert(fields, entries);
        assert(self@.fields =~= old(self)@.fields.insert(
            fields,
            without(old(self)@.fields[fields], name@),
        ));
    }

    /// Adds the pair (`name`, `value`) at the end of the collection `fields`.
    pub fn fields_append(&mut self, fields: Fields, name: String, value: String)
        requires
            old(self).wf(),
            old(self)@.allows(Op::FieldsAppend { fields, name: name@, value: value@ }),
        ensures
            final(self).wf(),
            final(self)@ == old(self)@.after(
                Op::FieldsAppend { fields, name: name@, value: value@ },
            ),
    {
        let ghost name_text = name@;
        let ghost value_text = value@;
        proof {
            self.lemma_fields_wf();
        }
        let mut entries = self.fields.remove(fields);
        append_value(&mut entries, name, value);
        self.fields.insert(fields, entries);
        assert(self@.fields =~= old(self)@.fields.insert(
            fields,
            with_appended(old(self)@.fields[fields], name_text, value_text),
        ));
    }

    /// All pairs of the collection `fields`, in order.
    pub fn fields_entries(&self, fields: Fields) -> (entries: Vec<(String, String)>)
        requires
            self.wf(),
            self@.allows(Op::FieldsEntries { fields }),
        ensures
            entries_view(entries@) == self@.fields[fields],
    {
        clone_entries(self.fields.get(fields))
    }

    /// Creates a header collection that holds a copy of the pairs of
    /// `fields`, and returns its handle. The two collections share nothing.
    pub fn fields_clone(&mut self, fields: Fields) -> (copy: Fields)
        requires
            old(self).wf(),
            old(self)@.allows(Op::FieldsClone { fields }),
        ensures
            final(self).wf(),
            copy == old(self)@.next_fields,
            copy != fields,
            final(self)@ == old(self)@.after(Op::FieldsClone { fields }),
    {
        let entries = clone_entries(self.fields.get(fields));
        proof {
            self.lemma_fields_wf();
        }
        let copy: Fields = self.fields.allocate();
        self.fields.insert(copy, entries);
        assert(self@.fields =~= old(self)@.fields.insert(copy, old(self)@.fields[fields]));
        copy
    }
}

impl State {
    /// Creates a header collection from the host's report of the request
    /// headers: one pair for each reported name, in order, with the empty
    /// value where the host reported none. Every call makes a new collection.
    pub fn incoming_request_headers(&mut self, headers: Vec<(String, Option<String>)>) -> (fields:
        Headers)
        requires
            old(self).wf(),
            old(self)@.allows(Op::NewFields { entries: reported_headers(headers@) }),
        ensures
            final(self).wf(),
            fields == old(self)@.next_fields,
            !old(self)@.fields.contains_key(fields),
            final(self)@ == old(self)@.after(Op::NewFields { entries: reported_headers(headers@) }),
    {
        let mut entries: Vec<(String, String)> = Vec::new();
        let mut i: usize = 0;
        while i < headers.len()
            invariant
                i <= headers.len(),
                entries_view(entries@) == reported_headers(headers@).take(i as int),
            decreases headers.len() - i,
        {
            let ghost before = entries_view(entries@);
            let name: String = headers[i].0.clone();
            let value: String = match &headers[i].1 {
                Some(value) => value.clone(),
                None => String::new(),
            };
            entries.push((name, value));
            assert(entries_view(entries@) =~= before.push(reported_headers(headers@)[i as int]));
            assert(entries_view(entries@) =~= reported_headers(headers@).take(i as int + 1));
            i += 1;
        }
        assert(reported_headers(headers@).take(headers.len() as int) =~= reported_headers(
            headers@,
        ));
        self.new_fields(entries)
    }

    /// Opens a stream on the body of the downstream request and returns its
    /// handle. `request` must be the downstream request. Every call opens
    /// another stream on the same body.
    pub fn incoming_request_consume(&mut self, request: IncomingRequest) -> (stream: Result<
        IncomingStream,
        (),
    >)
        requires
            old(self).wf(),
            old(self)@.allows(Op::IncomingRequestConsume { request }),
        ensures
            final(self).wf(),
            stream == Ok::<IncomingStream, ()>(old(self)@.next_incoming_stream),
            !old(self)@.incoming_streams.contains_key(old(self)@.next_incoming_stream),
            final(self)@ == old(self)@.after(Op::IncomingRequestConsume { request }),
    {
        let stream: IncomingStream = self.incoming_streams.allocate();
        let body: BodyHandle = self.incoming_request.1;
        self.incoming_streams.insert(stream, body);
        Ok(stream)
    }

    /// Closes the incoming stream `stream`. There are never trailers.
    pub fn finish_incoming_stream(&mut self, stream: IncomingStream) -> (trailers: Option<Trailers>)
        requires
            old(self).wf(),
            old(self)@.allows(Op::FinishIncomingStream { stream }),
        ensures
            final(self).wf(),
            trailers is None,
            final(self)@ == old(self)@.after(Op::FinishIncomingStream { stream }),
    {
        self.incoming_streams.remove(stream);
        None
    }

    /// Finishing an outgoing stream changes nothing: the stream stays live
    /// until it is dropped, and trailers are not passed on.
    pub fn finish_outgoing_stream(&mut self, stream: OutgoingStream, trailers: Option<Trailers>)
        ensures
            *final(self) == *old(self),
    {
    }

    /// Dropping the downstream request changes nothing: it lives as long as
    /// the invocation.
    pub fn drop_incoming_request(&mut self, request: IncomingRequest)
        ensures
            *final(self) == *old(self),
    {
    }

    /// The host calls that give the freshly created host response `response`
    /// the status `status_code` and the pairs of the collection `headers`:
    /// the status first, then one call for each pair, in order.
    ///
    /// The caller creates `response` before, carries the calls out, then
    /// creates a body and registers both with `new_outgoing_response`.
    pub fn outgoing_response_calls(
        &self,
        status_code: StatusCode,
        headers: Headers,
        response: ResponseHandle,
    ) -> (calls: Vec<HostCall>)
        requires
            self.wf(),
            self@.allows(Op::OutgoingResponseCalls { headers }),
        ensures
            calls_view(calls@) == response_setup(response, status_code, self@.fields[headers]),
    {
        let entries = self.fields.get(headers);
        let mut calls: Vec<HostCall> = Vec::new();
        calls.push(HostCall::ResponseStatusSet { response, status: status_code });
        let mut i: usize = 0;
        while i < entries.len()
            invariant
                i <= entries.len(),
                calls@.len() == i + 1,
                calls_view(calls@) == response_setup(
                    response,
                    status_code,
                    entries_view(entries@),
                ).take(i as int + 1),
            decreases entries.len() - i,
        {
            let ghost before = calls_view(calls@);
            let name: String = entries[i].0.clone();
            let value: String = entries[i].1.clone();
            calls.push(HostCall::ResponseHeaderAppend { response, name, value });
            assert(calls_view(calls@) =~= before.push(
                HostCallView::ResponseHeaderAppend {
                    response,
                    name: entries@[i as int].0@,
                    value: entries@[i as int].1@,
                },
            ));
            assert(calls_view(calls@) =~= response_setup(
                response,
                status_code,
                entries_view(entries@),
            ).take(i as int + 2));
            i += 1;
        }
        assert(calls_view(calls@) =~= response_setup(
            response,
            status_code,
            entries_view(entries@),
        ));
        calls
    }

    /// Registers a response for the host response `response` and the host
    /// body `body`, and returns its handle.
    pub fn new_outgoing_response(&mut self, response: ResponseHandle, body: BodyHandle) -> (handle:
        OutgoingResponse)
        requires
            old(self).wf(),
            old(self)@.allows(Op::NewOutgoingResponse { response, body }),
        ensures
            final(self).wf(),
            handle == old(self)@.next_response,
            !old(self)@.responses.contains_key(handle),
            final(self)@ == old(self)@.after(Op::NewOutgoingResponse { response, body }),
    {
        let handle: OutgoingResponse = self.responses.allocate();
        self.responses.insert(handle, (response, body));
        handle
    }

    /// Opens a stream on the body of the response `response` and returns its
    /// handle. Every call opens another stream on the same body.
    pub fn outgoing_response_write(&mut self, response: OutgoingResponse) -> (stream: Result<
        OutgoingStream,
        (),
    >)
        requires
            old(self).wf(),
            old(self)@.allows(Op::OutgoingResponseWrite { response }),
        ensures
            final(self).wf(),
            stream == Ok::<OutgoingStream, ()>(old(self)@.next_outgoing_stream),
            !old(self)@.outgoing_streams.contains_key(old(self)@.next_outgoing_stream),
            final(self)@ == old(self)@.after(Op::OutgoingResponseWrite { response }),
    {
        let body: BodyHandle = self.responses.get(response).1;
        let stream: OutgoingStream = self.outgoing_streams.allocate();
        self.outgoing_streams.insert(stream, body);
        Ok(stream)
    }

    /// Removes the response `response`.
    pub fn drop_outgoing_response(&mut self, response: OutgoingResponse)
        requires
            old(self).wf(),
            old(self)@.allows(Op::DropOutgoingResponse { response }),
        ensures
            final(self).wf(),
            final(self)@ == old(self)@.after(Op::DropOutgoingResponse { response }),
    {
        self.responses.remove(response);
    }

    /// Designates the response that is to become the downstream reply. A
    /// failure in place of a response is accepted and designates nothing: the
    /// slot keeps what it held.
    pub fn set_response_outparam(&mut self, response: Result<OutgoingResponse, Error>) -> (done:
        Result<(), ()>)
        requires
            old(self).wf(),
            old(self)@.allows(Op::SetResponseOutparam { designated: designated_by(response) }),
        ensures
            final(self).wf(),
            done is Ok,
            final(self)@ == old(self)@.after(
                Op::SetResponseOutparam { designated: designated_by(response) },
            ),
    {
        match response {
            Ok(handle) => {
                self.response_outparam = Some(handle);
            },
            Err(_) => {},
        }
        Ok(())
    }

    /// Finalizes the reply. Where a response is designated, returns the call
    /// that sends its host response and body downstream; where none is,
    /// returns no call. Either way the slot is empty afterwards.
    ///
    /// `response` must be the one outparam, and a designated response must
    /// be live.
    pub fn drop_response_outparam(&mut self, response: ResponseOutparam) -> (call: Option<
        HostCall,
    >)
        requires
            old(self).wf(),
            old(self)@.allows(Op::DropResponseOutparam { outparam: response }),
        ensures
            final(self).wf(),
            optional_call(call) == old(self)@.downstream_send(),
            final(self)@ == old(self)@.after(Op::DropResponseOutparam { outparam: response }),
    {
        let call: Option<HostCall> = match self.response_outparam {
            Some(designated) => {
                let pair: (ResponseHandle, BodyHandle) = *self.responses.get(designated);
                Some(HostCall::SendDownstream { response: pair.0, body: pair.1, streaming: false })
            },
            None => None,
        };
        self.response_outparam = None;
        call
    }

    /// The host call that reads from the body behind the incoming stream
    /// `this`. The host is asked for at most the low 32 bits of `len`.
    pub fn read(&self, this: InputStream, len: u64) -> (call: HostCall)
        requires
            self.wf(),
            self@.allows(Op::Read { stream: this }),
        ensures
            call@ == (HostCallView::BodyRead {
                body: self@.incoming_streams[this],
                max_len: (len % 0x1_0000_0000) as u32,
            }),
    {
        let body: BodyHandle = *self.incoming_streams.get(this);
        HostCall::BodyRead { body, max_len: (len % 0x1_0000_0000) as u32 }
    }

    /// The same as `read`: no call blocks.
    pub fn blocking_read(&self, this: InputStream, len: u64) -> (call: HostCall)
        requires
            self.wf(),
            self@.allows(Op::Read { stream: this }),
        ensures
            call@ == (HostCallView::BodyRead {
                body: self@.incoming_streams[this],
                max_len: (len % 0x1_0000_0000) as u32,
            }),
    {
        self.read(this, len)
    }

    /// Removes the incoming stream `this`.
    pub fn drop_input_stream(&mut self, this: InputStream)
        requires
            old(self).wf(),
            old(self)@.allows(Op::DropInputStream { stream: this }),
        ensures
            final(self).wf(),
            final(self)@ == old(self)@.after(Op::DropInputStream { stream: this }),
    {
        self.incoming_streams.remove(this);
    }

    /// The host call that writes `buf` at the back of the body behind the
    /// outgoing stream `this`; more data may follow.
    pub fn write(&self, this: OutputStream, buf: Vec<u8>) -> (call: HostCall)
        requires
            self.wf(),
            self@.allows(Op::Write { stream: this }),
        ensures
            call@ == (HostCallView::BodyWrite {
                body: self@.outgoing_streams[this],
                bytes: buf@,
                end: BodyWriteEnd::Back,
            }),
    {
        let body: BodyHandle = *self.outgoing_streams.get(this);
        HostCall::BodyWrite { body, bytes: buf, end: BodyWriteEnd::Back }
    }

    /// The same as `write`: no call blocks.
    pub fn blocking_write(&self, this: OutputStream, buf: Vec<u8>) -> (call: HostCall)
        requires
            self.wf(),
            self@.allows(Op::Write { stream: this }),
        ensures
            call@ == (HostCallView::BodyWrite {
                body: self@.outgoing_streams[this],
                bytes: buf@,
                end: BodyWriteEnd::Back,
            }),
    {
        self.write(this, buf)
    }

    /// Removes the outgoing stream `this`.
    pub fn drop_output_stream(&mut self, this: OutputStream)
        requires
            old(self).wf(),
            old(self)@.allows(Op::DropOutputStream { stream: this }),
        ensures
            final(self).wf(),
            final(self)@ == old(self)@.after(Op::DropOutputStream { stream: this }),
    {
        self.outgoing_streams.remove(this);
    }
}

} // verus!
