use http_adapter::host::{BodyWriteEnd, HostCall};
use http_adapter::state::State;
use http_adapter::streams::{read_outcome, write_outcome};
use http_adapter::types::{Error, HostError, StreamError, RESPONSE_OUTPARAM};
use std::collections::HashMap;

fn pair(name: &str, value: &str) -> (String, String) {
    (name.to_string(), value.to_string())
}

/// What reaches the downstream client.
#[derive(Debug, PartialEq, Eq, Clone)]
struct Reply {
    status: u16,
    headers: Vec<(String, String)>,
    body: Vec<u8>,
}

/// A host that keeps responses and bodies in memory and records what it is
/// asked to send.
struct MemoryHost {
    next: u32,
    responses: HashMap<u32, (u16, Vec<(String, String)>)>,
    bodies: HashMap<u32, Vec<u8>>,
    sent: Vec<Reply>,
    most_taken: usize,
}

impl MemoryHost {
    fn new() -> MemoryHost {
        MemoryHost {
            next: 100,
            responses: HashMap::new(),
            bodies: HashMap::new(),
            sent: Vec::new(),
            most_taken: usize::MAX,
        }
    }

    fn response_new(&mut self) -> u32 {
        let handle = self.next;
        self.next += 1;
        self.responses.insert(handle, (200, Vec::new()));
        handle
    }

    fn body_new(&mut self) -> u32 {
        let handle = self.next;
        self.next += 1;
        self.bodies.insert(handle, Vec::new());
        handle
    }

    fn perform(&mut self, call: HostCall) -> Result<u32, HostError> {
        match call {
            HostCall::ResponseStatusSet { response, status } => {
                self.responses.get_mut(&response).ok_or(HostError {})?.0 = status;
                Ok(0)
            }
            HostCall::ResponseHeaderAppend { response, name, value } => {
                self.responses.get_mut(&response).ok_or(HostError {})?.1.push((name, value));
                Ok(0)
            }
            HostCall::BodyRead { .. } => Ok(0),
            HostCall::BodyWrite { body, bytes, end } => {
                let taken = bytes.len().min(self.most_taken);
                let held = self.bodies.get_mut(&body).ok_or(HostError {})?;
                match end {
                    BodyWriteEnd::Back => held.extend_from_slice(&bytes[..taken]),
                    BodyWriteEnd::Front => {
                        let mut front = bytes[..taken].to_vec();
                        front.extend_from_slice(held);
                        *held = front;
                    }
                }
                Ok(taken as u32)
            }
            HostCall::SendDownstream { response, body, streaming } => {
                assert!(!streaming);
                let (status, headers) = self.responses.get(&response).ok_or(HostError {})?.clone();
                let body = self.bodies.get(&body).ok_or(HostError {})?.clone();
                self.sent.push(Reply { status, headers, body });
                Ok(0)
            }
        }
    }
}

/// Builds a response as a handler would: the host response first, then the
/// calls that the adapter asks for, then the body, then the registration.
fn build(state: &mut State, host: &mut MemoryHost, status: u16, headers: u32) -> u32 {
    let response = host.response_new();
    for call in state.outgoing_response_calls(status, headers, response) {
        host.perform(call).unwrap();
    }
    let body = host.body_new();
    state.new_outgoing_response(response, body)
}

fn finalize(state: &mut State, host: &mut MemoryHost) {
    if let Some(call) = state.drop_response_outparam(RESPONSE_OUTPARAM) {
        host.perform(call).unwrap();
    }
}

#[test]
fn hello_world_end_to_end() {
    let mut state = State::new((1, 2));
    let mut host = MemoryHost::new();
    let headers = state.new_fields(vec![pair("Content-Type", "text/plain")]);
    let response = build(&mut state, &mut host, 200, headers);
    let stream = state.outgoing_response_write(response).unwrap();
    let call = state.write(stream, "Hello world!".as_bytes().to_vec());
    let written = write_outcome(host.perform(call));
    assert_eq!(written, Ok(12));
    assert_eq!(state.set_response_outparam(Ok(response)), Ok(()));
    finalize(&mut state, &mut host);
    assert_eq!(
        host.sent,
        vec![Reply {
            status: 200,
            headers: vec![pair("Content-Type", "text/plain")],
            body: "Hello world!".as_bytes().to_vec(),
        }]
    );
}

#[test]
fn setup_calls_are_status_then_headers_in_order() {
    let mut state = State::new((1, 2));
    let headers = state.new_fields(vec![pair("a", "1"), pair("b", "2"), pair("a", "3")]);
    let calls = state.outgoing_response_calls(404, headers, 77);
    assert_eq!(
        calls,
        vec![
            HostCall::ResponseStatusSet { response: 77, status: 404 },
            HostCall::ResponseHeaderAppend {
                response: 77,
                name: "a".to_string(),
                value: "1".to_string()
            },
            HostCall::ResponseHeaderAppend {
                response: 77,
                name: "b".to_string(),
                value: "2".to_string()
            },
            HostCall::ResponseHeaderAppend {
                response: 77,
                name: "a".to_string(),
                value: "3".to_string()
            },
        ]
    );
    let none = state.new_fields(vec![]);
    assert_eq!(
        state.outgoing_response_calls(204, none, 78),
        vec![HostCall::ResponseStatusSet { response: 78, status: 204 }]
    );
}

#[test]
fn unwritten_response_is_sent_with_an_empty_body() {
    let mut state = State::new((1, 2));
    let mut host = MemoryHost::new();
    let headers = state.new_fields(vec![pair("x", "1"), pair("y", "2"), pair("x", "3")]);
    let response = build(&mut state, &mut host, 503, headers);
    state.set_response_outparam(Ok(response)).unwrap();
    finalize(&mut state, &mut host);
    assert_eq!(
        host.sent,
        vec![Reply {
            status: 503,
            headers: vec![pair("x", "1"), pair("y", "2"), pair("x", "3")],
            body: vec![],
        }]
    );
}

#[test]
fn several_writes_arrive_in_order() {
    let mut state = State::new((1, 2));
    let mut host = MemoryHost::new();
    let headers = state.new_fields(vec![]);
    let response = build(&mut state, &mut host, 200, headers);
    let stream = state.outgoing_response_write(response).unwrap();
    let mut total: u64 = 0;
    for chunk in ["Hel", "lo w", "", "orld!"] {
        let call = state.blocking_write(stream, chunk.as_bytes().to_vec());
        total += write_outcome(host.perform(call)).unwrap();
    }
    state.set_response_outparam(Ok(response)).unwrap();
    finalize(&mut state, &mut host);
    assert_eq!(total, 12);
    assert_eq!(host.sent.len(), 1);
    assert_eq!(host.sent[0].body, "Hello world!".as_bytes().to_vec());
    assert_eq!(host.sent[0].body.len() as u64, total);
}

#[test]
fn counts_add_up_when_the_host_takes_less() {
    let mut state = State::new((1, 2));
    let mut host = MemoryHost::new();
    host.most_taken = 3;
    let headers = state.new_fields(vec![]);
    let response = build(&mut state, &mut host, 200, headers);
    let stream = state.outgoing_response_write(response).unwrap();
    let mut total: u64 = 0;
    for chunk in ["abcdef", "gh", "ijkl"] {
        let call = state.write(stream, chunk.as_bytes().to_vec());
        total += write_outcome(host.perform(call)).unwrap();
    }
    state.set_response_outparam(Ok(response)).unwrap();
    finalize(&mut state, &mut host);
    assert_eq!(total, 8);
    assert_eq!(host.sent[0].body, "abcghijk".as_bytes().to_vec());
}

#[test]
fn nothing_designated_sends_nothing() {
    let mut state = State::new((1, 2));
    let mut host = MemoryHost::new();
    let headers = state.new_fields(vec![pair("a", "1")]);
    let _response = build(&mut state, &mut host, 200, headers);
    assert_eq!(state.response_outparam(), None);
    assert_eq!(state.drop_response_outparam(RESPONSE_OUTPARAM), None);
    finalize(&mut state, &mut host);
    assert!(host.sent.is_empty());
}

#[test]
fn fresh_state_sends_nothing() {
    let mut state = State::new((1, 2));
    assert_eq!(state.drop_response_outparam(0), None);
    assert_eq!(state.response_outparam(), None);
}

#[test]
fn reply_is_sent_once() {
    let mut state = State::new((1, 2));
    let response = state.new_outgoing_response(40, 41);
    state.set_response_outparam(Ok(response)).unwrap();
    assert_eq!(state.response_outparam(), Some(response));
    assert_eq!(
        state.drop_response_outparam(RESPONSE_OUTPARAM),
        Some(HostCall::SendDownstream { response: 40, body: 41, streaming: false })
    );
    assert_eq!(state.response_outparam(), None);
    assert_eq!(state.drop_response_outparam(RESPONSE_OUTPARAM), None);
}

#[test]
fn last_designation_wins() {
    let mut state = State::new((1, 2));
    let first = state.new_outgoing_response(40, 41);
    let second = state.new_outgoing_response(50, 51);
    assert_eq!(first, 0);
    assert_eq!(second, 1);
    state.set_response_outparam(Ok(first)).unwrap();
    state.set_response_outparam(Ok(second)).unwrap();
    assert_eq!(
        state.drop_response_outparam(RESPONSE_OUTPARAM),
        Some(HostCall::SendDownstream { response: 50, body: 51, streaming: false })
    );
}

#[test]
fn a_failure_designates_nothing() {
    let mut state = State::new((1, 2));
    assert_eq!(
        state.set_response_outparam(Err(Error::UnexpectedError("boom".to_string()))),
        Ok(())
    );
    assert_eq!(state.response_outparam(), None);
    assert_eq!(state.drop_response_outparam(RESPONSE_OUTPARAM), None);

    let response = state.new_outgoing_response(40, 41);
    state.set_response_outparam(Ok(response)).unwrap();
    for failure in [
        Error::InvalidUrl("u".to_string()),
        Error::TimeoutError("t".to_string()),
        Error::ProtocolError("p".to_string()),
    ] {
        assert_eq!(state.set_response_outparam(Err(failure)), Ok(()));
    }
    assert_eq!(state.response_outparam(), Some(response));
}

#[test]
fn response_write_opens_a_stream_on_the_response_body() {
    let mut state = State::new((1, 2));
    let response = state.new_outgoing_response(40, 41);
    let stream = state.outgoing_response_write(response);
    assert_eq!(stream, Ok(0));
    assert!(state.has_outgoing_stream(0));
    assert_eq!(
        state.write(0, vec![1, 2, 3]),
        HostCall::BodyWrite { body: 41, bytes: vec![1, 2, 3], end: BodyWriteEnd::Back }
    );
    let again = state.outgoing_response_write(response);
    assert_eq!(again, Ok(1));
    assert_eq!(
        state.blocking_write(1, vec![]),
        HostCall::BodyWrite { body: 41, bytes: vec![], end: BodyWriteEnd::Back }
    );
}

#[test]
fn dropped_handles_are_not_live() {
    let mut state = State::new((1, 2));
    let response = state.new_outgoing_response(40, 41);
    let out = state.outgoing_response_write(response).unwrap();
    let input = state.incoming_request_consume(1).unwrap();
    let finished = state.incoming_request_consume(1).unwrap();

    state.drop_output_stream(out);
    assert!(!state.has_outgoing_stream(out));
    assert!(state.has_response(response));

    state.drop_outgoing_response(response);
    assert!(!state.has_response(response));

    state.drop_input_stream(input);
    assert!(!state.has_incoming_stream(input));
    assert!(state.has_incoming_stream(finished));

    assert_eq!(state.finish_incoming_stream(finished), None);
    assert!(!state.has_incoming_stream(finished));

    let later = state.new_outgoing_response(60, 61);
    assert_ne!(later, response);
    assert!(!state.has_response(response));
    let later_out = state.outgoing_response_write(later).unwrap();
    assert_ne!(later_out, out);
    assert!(!state.has_outgoing_stream(out));
    let later_in = state.incoming_request_consume(1).unwrap();
    assert_ne!(later_in, input);
    assert_ne!(later_in, finished);
}

#[test]
fn read_asks_for_the_low_32_bits_of_the_length() {
    let mut state = State::new((1, 2));
    let stream = state.incoming_request_consume(1).unwrap();
    assert_eq!(state.read(stream, 0), HostCall::BodyRead { body: 2, max_len: 0 });
    assert_eq!(
        state.read(stream, 4_294_967_295),
        HostCall::BodyRead { body: 2, max_len: 4_294_967_295 }
    );
    assert_eq!(state.read(stream, 4_294_967_296), HostCall::BodyRead { body: 2, max_len: 0 });
    assert_eq!(state.read(stream, 4_294_967_301), HostCall::BodyRead { body: 2, max_len: 5 });
    assert_eq!(
        state.blocking_read(stream, u64::MAX),
        HostCall::BodyRead { body: 2, max_len: u32::MAX }
    );
}

#[test]
fn read_outcome_flags_the_end_on_no_bytes() {
    assert_eq!(read_outcome(Ok(vec![1, 2, 3])), Ok((vec![1, 2, 3], false)));
    assert_eq!(read_outcome(Ok(vec![])), Ok((vec![], true)));
    assert_eq!(read_outcome(Err(HostError {})), Err(StreamError {}));
}

#[test]
fn write_outcome_widens_the_count() {
    assert_eq!(write_outcome(Ok(0)), Ok(0));
    assert_eq!(write_outcome(Ok(12)), Ok(12));
    assert_eq!(write_outcome(Ok(u32::MAX)), Ok(4_294_967_295));
    assert_eq!(write_outcome(Err(HostError {})), Err(StreamError {}));
}
