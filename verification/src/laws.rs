//! What holds of the adapter whatever it is asked to do, proved from the
//! contracts and the model of the other modules.

use vstd::prelude::*;
use crate::fields::{
    lemma_values_of_add, lemma_values_of_paired, lemma_values_of_push, lemma_values_of_without,
    paired, values_of, with_appended, with_set, without,
};
use crate::host::{
    BodyWriteEnd, Exchange, HostCallView, HostResponse, HostView, Reply, exchanges_of,
    response_setup,
};
use crate::model::{Handle, Op, StateView, replay};
use crate::types::{
    BodyHandle, Entries, Fields, IncomingRequest, ResponseHandle, StatusCode, RESPONSE_OUTPARAM,
};

verus! {

/// After a name has been set, reading it gives exactly the values it was set
/// to, in their order, and reading any other name gives what it gave before.
pub proof fn law_get_after_set(
    entries: Entries,
    name: Seq<char>,
    values: Seq<Seq<char>>,
    other: Seq<char>,
)
    ensures
        values_of(with_set(entries, name, values), name) == values,
        other != name ==> values_of(with_set(entries, name, values), other) == values_of(
            entries,
            other,
        ),
{
    lemma_values_of_add(without(entries, name), paired(name, values), name);
    lemma_values_of_add(without(entries, name), paired(name, values), other);
    lemma_values_of_without(entries, name, name);
    lemma_values_of_without(entries, name, other);
    lemma_values_of_paired(name, values, name);
    lemma_values_of_paired(name, values, other);
    assert(Seq::<Seq<char>>::empty() + values =~= values);
    assert(values_of(entries, other) + Seq::<Seq<char>>::empty() =~= values_of(entries, other));
}

/// After a name has been deleted, reading it gives nothing, and reading any
/// other name gives what it gave before.
pub proof fn law_get_after_delete(entries: Entries, name: Seq<char>, other: Seq<char>)
    ensures
        values_of(without(entries, name), name) == Seq::<Seq<char>>::empty(),
        other != name ==> values_of(without(entries, name), other) == values_of(entries, other),
{
    lemma_values_of_without(entries, name, name);
    lemma_values_of_without(entries, name, other);
}

/// After a pair has been appended, reading its name gives the values of
/// before and then the new value, and reading any other name gives what it
/// gave before.
pub proof fn law_get_after_append(
    entries: Entries,
    name: Seq<char>,
    value: Seq<char>,
    other: Seq<char>,
)
    ensures
        values_of(with_appended(entries, name, value), name) == values_of(entries, name).push(
            value,
        ),
        other != name ==> values_of(with_appended(entries, name, value), other) == values_of(
            entries,
            other,
        ),
{
    lemma_values_of_push(entries, (name, value), name);
    lemma_values_of_push(entries, (name, value), other);
}

/// Setting a name to no values is deleting it.
pub proof fn law_set_to_nothing_is_delete(entries: Entries, name: Seq<char>)
    ensures
        with_set(entries, name, Seq::empty()) == without(entries, name),
{
    assert(paired(name, Seq::empty()) =~= Seq::empty());
    assert(without(entries, name) + paired(name, Seq::empty()) =~= without(entries, name));
}

/// One allowed operation keeps the tables well formed, leaves the downstream
/// request as it is, and never brings back a handle that was handed out and
/// is no longer live.
pub proof fn law_step(state: StateView, op: Op, handle: Handle)
    requires
        state.wf(),
        state.allows(op),
    ensures
        state.after(op).wf(),
        state.after(op).incoming_request == state.incoming_request,
        state.issued(handle) ==> state.after(op).issued(handle),
        state.issued(handle) && !state.live(handle) ==> !state.after(op).live(handle),
{
}

/// A sequence of allowed operations keeps the tables well formed and leaves
/// the downstream request as it is.
pub proof fn law_run_keeps_wf(state: StateView, ops: Seq<Op>)
    requires
        state.wf(),
        state.run(ops) is Some,
    ensures
        state.run(ops).unwrap().wf(),
        state.run(ops).unwrap().incoming_request == state.incoming_request,
    decreases ops.len(),
{
    if ops.len() > 0 {
        law_run_keeps_wf(state, ops.drop_last());
        law_step(state.run(ops.drop_last()).unwrap(), ops.last(), Handle::Fields(0));
    }
}

/// A handle that was handed out and is no longer live is never live again,
/// whatever operations follow.
pub proof fn law_dead_handle_stays_dead(state: StateView, handle: Handle, ops: Seq<Op>)
    requires
        state.wf(),
        state.issued(handle),
        !state.live(handle),
        state.run(ops) is Some,
    ensures
        state.run(ops).unwrap().issued(handle),
        !state.run(ops).unwrap().live(handle),
    decreases ops.len(),
{
    if ops.len() > 0 {
        law_dead_handle_stays_dead(state, handle, ops.drop_last());
        law_run_keeps_wf(state, ops.drop_last());
        law_step(state.run(ops.drop_last()).unwrap(), ops.last(), handle);
    }
}

/// Once a handle has been dropped, every operation that is handed it is a
/// fault, however many allowed operations lie in between: no sequence of
/// allowed operations goes on with one. For a response, finalizing the reply
/// is a fault too for as long as the slot designates it.
pub proof fn law_use_after_drop_faults(
    state: StateView,
    handle: Handle,
    dropping: Op,
    between: Seq<Op>,
    op: Op,
)
    requires
        state.wf(),
        dropping.drops(handle),
        state.allows(dropping),
        state.after(dropping).run(between) is Some,
        op.uses(handle),
    ensures
        ({
            let later = state.after(dropping).run(between).unwrap();
            &&& !later.live(handle)
            &&& !later.allows(op)
            &&& state.after(dropping).run(between.push(op)) is None
            &&& match handle {
                Handle::Response(response) => later.response_outparam == Some(response)
                    ==> !later.allows(Op::DropResponseOutparam { outparam: RESPONSE_OUTPARAM }),
                _ => true,
            }
        }),
{
    law_step(state, dropping, handle);
    law_dead_handle_stays_dead(state.after(dropping), handle, between);
    assert(between.push(op).drop_last() =~= between);
}

/// Whatever sequence of allowed operations is carried out, on this or any
/// other handle, a header collection that is not dropped holds in the end
/// what a replay of the sequence on a plain list of pairs gives.
pub proof fn law_entries_replay(state: StateView, fields: Fields, ops: Seq<Op>)
    requires
        state.wf(),
        state.fields.contains_key(fields),
        forall|i: int| 0 <= i < ops.len() ==> !(#[trigger] ops[i]).drops(Handle::Fields(fields)),
        state.run(ops) is Some,
    ensures
        state.run(ops).unwrap().fields.contains_key(fields),
        state.run(ops).unwrap().fields[fields] == replay(state.fields[fields], fields, ops),
    decreases ops.len(),
{
    if ops.len() > 0 {
        let init = ops.drop_last();
        assert forall|i: int| 0 <= i < init.len() implies !(#[trigger] init[i]).drops(
            Handle::Fields(fields),
        ) by {
            assert(init[i] == ops[i]);
        }
        law_entries_replay(state, fields, init);
        law_run_keeps_wf(state, init);
        assert(!ops[ops.len() - 1].drops(Handle::Fields(fields)));
    }
}

/// A header collection keeps its pairs through every sequence of allowed
/// operations none of which changes or removes it.
pub proof fn law_untouched_fields_keep_entries(state: StateView, fields: Fields, ops: Seq<Op>)
    requires
        state.wf(),
        state.fields.contains_key(fields),
        forall|i: int| 0 <= i < ops.len() ==> !(#[trigger] ops[i]).changes_fields(fields),
        state.run(ops) is Some,
    ensures
        state.run(ops).unwrap().fields.contains_key(fields),
        state.run(ops).unwrap().fields[fields] == state.fields[fields],
    decreases ops.len(),
{
    if ops.len() > 0 {
        let init = ops.drop_last();
        assert forall|i: int| 0 <= i < init.len() implies !(#[trigger] init[i]).changes_fields(
            fields,
        ) by {
            assert(init[i] == ops[i]);
        }
        law_untouched_fields_keep_entries(state, fields, init);
        law_run_keeps_wf(state, init);
        assert(!ops[ops.len() - 1].changes_fields(fields));
    }
}

/// A clone is an independent copy: it starts with the pairs of the
/// collection it was made from, under a handle of its own, and from then on
/// whatever is done to the one leaves the pairs of the other as they are.
pub proof fn law_clone_is_independent(state: StateView, fields: Fields, ops: Seq<Op>)
    requires
        state.wf(),
        state.allows(Op::FieldsClone { fields }),
        state.after(Op::FieldsClone { fields }).run(ops) is Some,
    ensures
        ({
            let copy = state.next_fields;
            let cloned = state.after(Op::FieldsClone { fields });
            let later = cloned.run(ops).unwrap();
            &&& copy != fields
            &&& cloned.fields[copy] == state.fields[fields]
            &&& cloned.fields[fields] == state.fields[fields]
            &&& (forall|i: int| 0 <= i < ops.len() ==> !(#[trigger] ops[i]).changes_fields(fields))
                ==> later.fields.contains_key(fields) && later.fields[fields]
                == state.fields[fields]
            &&& (forall|i: int| 0 <= i < ops.len() ==> !(#[trigger] ops[i]).changes_fields(copy))
                ==> later.fields.contains_key(copy) && later.fields[copy] == state.fields[fields]
        }),
{
    let copy = state.next_fields;
    let cloned = state.after(Op::FieldsClone { fields });
    law_step(state, Op::FieldsClone { fields }, Handle::Fields(fields));
    if forall|i: int| 0 <= i < ops.len() ==> !(#[trigger] ops[i]).changes_fields(fields) {
        law_untouched_fields_keep_entries(cloned, fields, ops);
    }
    if forall|i: int| 0 <= i < ops.len() ==> !(#[trigger] ops[i]).changes_fields(copy) {
        law_untouched_fields_keep_entries(cloned, copy, ops);
    }
}

/// Consuming the downstream request is allowed for the one handle that names
/// it and for no other. It can be repeated: the request stays what it is, and
/// every call opens a further stream, under a handle of its own, on the same
/// body.
pub proof fn law_consume(state: StateView, request: IncomingRequest)
    requires
        state.wf(),
        state.next_incoming_stream + 1 < u32::MAX,
    ensures
        state.allows(Op::IncomingRequestConsume { request }) <==> request
            == state.incoming_request.0,
        request == state.incoming_request.0 ==> ({
            let once = state.after(Op::IncomingRequestConsume { request });
            let twice = once.after(Op::IncomingRequestConsume { request });
            let first = state.next_incoming_stream;
            let second = once.next_incoming_stream;
            &&& once.allows(Op::IncomingRequestConsume { request })
            &&& first != second
            &&& !state.incoming_streams.contains_key(first)
            &&& !state.incoming_streams.contains_key(second)
            &&& twice.incoming_streams.contains_key(first)
            &&& twice.incoming_streams.contains_key(second)
            &&& twice.incoming_streams[first] == state.incoming_request.1
            &&& twice.incoming_streams[second] == state.incoming_request.1
            &&& twice.incoming_request == state.incoming_request
        }),
{
}

/// Where no response is designated and none gets designated, finalizing the
/// reply is allowed and sends nothing.
pub proof fn law_nothing_designated_nothing_sent(state: StateView, ops: Seq<Op>)
    requires
        state.response_outparam is None,
        forall|i: int| 0 <= i < ops.len() ==> !(#[trigger] ops[i]).designates(),
        state.run(ops) is Some,
    ensures
        state.run(ops).unwrap().response_outparam is None,
        state.run(ops).unwrap().downstream_send() is None,
        state.run(ops).unwrap().allows(Op::DropResponseOutparam { outparam: RESPONSE_OUTPARAM }),
    decreases ops.len(),
{
    if ops.len() > 0 {
        let init = ops.drop_last();
        assert forall|i: int| 0 <= i < init.len() implies !(#[trigger] init[i]).designates() by {
            assert(init[i] == ops[i]);
        }
        law_nothing_designated_nothing_sent(state, init);
        assert(!ops[ops.len() - 1].designates());
    }
}

/// The reply is finalized once: after it, the slot is empty, so that
/// finalizing again is allowed and sends nothing.
pub proof fn law_reply_is_sent_once(state: StateView)
    requires
        state.allows(Op::DropResponseOutparam { outparam: RESPONSE_OUTPARAM }),
    ensures
        ({
            let done = state.after(Op::DropResponseOutparam { outparam: RESPONSE_OUTPARAM });
            &&& done.response_outparam is None
            &&& done.downstream_send() is None
            &&& done.allows(Op::DropResponseOutparam { outparam: RESPONSE_OUTPARAM })
        }),
{
}

/// One write for each of `bufs` at the back of `body`, of which the host
/// took `taken[i]` bytes.
pub open spec fn writes(body: BodyHandle, bufs: Seq<Seq<u8>>, taken: Seq<nat>) -> Seq<Exchange> {
    Seq::new(
        bufs.len(),
        |i: int|
            Exchange {
                call: HostCallView::BodyWrite {
                    body,
                    bytes: bufs[i],
                    end: BodyWriteEnd::Back,
                },
                taken: taken[i],
            },
    )
}

/// The bytes that the host took of a sequence of writes, in order: of each
/// buffer the first `taken[i]` bytes.
pub open spec fn accepted(bufs: Seq<Seq<u8>>, taken: Seq<nat>) -> Seq<u8>
    decreases bufs.len(),
{
    if bufs.len() == 0 {
        Seq::empty()
    } else {
        accepted(bufs.drop_last(), taken.drop_last()) + bufs.last().take(taken.last() as int)
    }
}

/// The sum of the numbers of bytes taken.
pub open spec fn total(taken: Seq<nat>) -> nat
    decreases taken.len(),
{
    if taken.len() == 0 {
        0
    } else {
        total(taken.drop_last()) + taken.last()
    }
}

/// Whether `taken` gives, for each of `bufs`, a number of bytes that the
/// buffer has.
pub open spec fn taken_fits(bufs: Seq<Seq<u8>>, taken: Seq<nat>) -> bool {
    &&& taken.len() == bufs.len()
    &&& forall|i: int| 0 <= i < bufs.len() ==> #[trigger] taken[i] <= bufs[i].len()
}

/// What the host makes of the calls of a whole reply: the response is set
/// up, the writes are made, the response is sent.
pub open spec fn reply_exchanges(
    response: ResponseHandle,
    body: BodyHandle,
    status: StatusCode,
    headers: Entries,
    bufs: Seq<Seq<u8>>,
    taken: Seq<nat>,
) -> Seq<Exchange> {
    exchanges_of(response_setup(response, status, headers)) + writes(body, bufs, taken)
        + exchanges_of(seq![HostCallView::SendDownstream { response, body, streaming: false }])
}

/// Carrying out two sequences of calls one after the other is carrying out
/// the two put end to end.
pub proof fn lemma_after_all_add(host: HostView, first: Seq<Exchange>, second: Seq<Exchange>)
    ensures
        host.after_all(first + second) == host.after_all(first).after_all(second),
    decreases second.len(),
{
    if second.len() == 0 {
        assert(first + second =~= first);
    } else {
        assert((first + second).drop_last() =~= first + second.drop_last());
        lemma_after_all_add(host, first, second.drop_last());
    }
}

/// Setting a response up gives it the status and adds the headers, in order,
/// and touches nothing else.
pub proof fn lemma_after_setup(
    host: HostView,
    response: ResponseHandle,
    status: StatusCode,
    headers: Entries,
)
    requires
        host.responses.contains_key(response),
    ensures
        host.after_all(exchanges_of(response_setup(response, status, headers))) == (HostView {
            responses: host.responses.insert(
                response,
                HostResponse { status, headers: host.responses[response].headers + headers },
            ),
            ..host
        }),
    decreases headers.len(),
{
    let calls = exchanges_of(response_setup(response, status, headers));
    if headers.len() == 0 {
        assert(calls.drop_last() =~= Seq::<Exchange>::empty());
        assert(host.after_all(calls.drop_last()) == host);
        assert(host.responses[response].headers + headers =~= host.responses[response].headers);
    } else {
        let init = headers.drop_last();
        assert(calls.drop_last() =~= exchanges_of(response_setup(response, status, init)));
        lemma_after_setup(host, response, status, init);
        let before = host.after_all(calls.drop_last());
        assert(before.responses[response].headers.push(headers.last())
            =~= host.responses[response].headers + headers);
        assert(before.after(calls.last()).responses =~= host.responses.insert(
            response,
            HostResponse { status, headers: host.responses[response].headers + headers },
        ));
    }
}

/// Writes at the back of a body add what the host took of them, in order,
/// and touch nothing else. The counts that the host reported add up to the
/// number of bytes added, and where the host took every buffer whole, the
/// bytes added are the buffers put end to end.
pub proof fn lemma_after_writes(
    host: HostView,
    body: BodyHandle,
    bufs: Seq<Seq<u8>>,
    taken: Seq<nat>,
)
    requires
        host.bodies.contains_key(body),
        taken_fits(bufs, taken),
    ensures
        host.after_all(writes(body, bufs, taken)) == (HostView {
            bodies: host.bodies.insert(body, host.bodies[body] + accepted(bufs, taken)),
            ..host
        }),
        accepted(bufs, taken).len() == total(taken),
        (forall|i: int| 0 <= i < bufs.len() ==> #[trigger] taken[i] == bufs[i].len()) ==> accepted(
            bufs,
            taken,
        ) == bufs.flatten(),
    decreases bufs.len(),
{
    let calls = writes(body, bufs, taken);
    if bufs.len() == 0 {
        assert(host.bodies[body] + accepted(bufs, taken) =~= host.bodies[body]);
        assert(host.bodies.insert(body, host.bodies[body]) =~= host.bodies);
        assert(bufs =~= Seq::<Seq<u8>>::empty());
        assert(bufs.flatten() =~= Seq::<u8>::empty());
    } else {
        let init = bufs.drop_last();
        let init_taken = taken.drop_last();
        assert(calls.drop_last() =~= writes(body, init, init_taken));
        assert forall|i: int| 0 <= i < init.len() implies #[trigger] init_taken[i]
            <= init[i].len() by {
            assert(taken[i] <= bufs[i].len());
        }
        lemma_after_writes(host, body, init, init_taken);
        let before = host.after_all(calls.drop_last());
        assert(taken[bufs.len() - 1] <= bufs[bufs.len() - 1].len());
        assert(before.bodies[body] + bufs.last().take(taken.last() as int) =~= host.bodies[body]
            + accepted(bufs, taken));
        assert(before.after(calls.last()).bodies =~= host.bodies.insert(
            body,
            host.bodies[body] + accepted(bufs, taken),
        ));
        if forall|i: int| 0 <= i < bufs.len() ==> #[trigger] taken[i] == bufs[i].len() {
            assert forall|i: int| 0 <= i < init.len() implies #[trigger] init_taken[i]
                == init[i].len() by {
                assert(taken[i] == bufs[i].len());
            }
            assert(taken[bufs.len() - 1] == bufs[bufs.len() - 1].len());
            assert(bufs.last().take(taken.last() as int) =~= bufs.last());
            assert(bufs =~= init.push(bufs.last()));
            init.lemma_flatten_push(bufs.last());
        }
    }
}

/// A response that is built with a status and the pairs of a header
/// collection, written to through a stream of its own any number of times
/// (or never), designated and finalized, reaches the downstream client as one
/// reply with that status, exactly those headers in their order, and as body
/// the bytes that the host took of the writes, in order. The counts that the
/// writes returned add up to the length of that body. Where nothing was
/// written the body is empty; where every write was taken whole it is the
/// written buffers put end to end.
///
/// This holds of a host that carries out each call as `HostView::after`
/// says, and that created `response` and `body` for this reply.
pub proof fn law_reply(
    state: StateView,
    host: HostView,
    status: StatusCode,
    headers: Fields,
    response: ResponseHandle,
    body: BodyHandle,
    bufs: Seq<Seq<u8>>,
    taken: Seq<nat>,
)
    requires
        state.wf(),
        state.allows(Op::OutgoingResponseCalls { headers }),
        state.allows(Op::NewOutgoingResponse { response, body }),
        state.next_outgoing_stream < u32::MAX,
        host.is_new_response(response),
        host.is_new_body(body),
        taken_fits(bufs, taken),
    ensures
        ({
            let handle = state.next_response;
            let stream = state.next_outgoing_stream;
            let built = state.after(Op::NewOutgoingResponse { response, body });
            let opened = built.after(Op::OutgoingResponseWrite { response: handle });
            let designated = opened.after(Op::SetResponseOutparam { designated: Some(handle) });
            let done = designated.after(Op::DropResponseOutparam { outparam: RESPONSE_OUTPARAM });
            let reply = Reply {
                status,
                headers: state.fields[headers],
                body: accepted(bufs, taken),
            };
            &&& built.allows(Op::OutgoingResponseWrite { response: handle })
            &&& opened.allows(Op::Write { stream })
            &&& opened.outgoing_streams[stream] == body
            &&& designated.allows(Op::DropResponseOutparam { outparam: RESPONSE_OUTPARAM })
            &&& designated.downstream_send() == Some(
                HostCallView::SendDownstream { response, body, streaming: false },
            )
            &&& done.downstream_send() is None
            &&& host.after_all(
                reply_exchanges(response, body, status, state.fields[headers], bufs, taken),
            ).sent == host.sent.push(reply)
            &&& reply.body.len() == total(taken)
            &&& bufs.len() == 0 ==> reply.body == Seq::<u8>::empty()
            &&& (forall|i: int| 0 <= i < bufs.len() ==> #[trigger] taken[i] == bufs[i].len())
                ==> reply.body == bufs.flatten()
        }),
{
    let entries = state.fields[headers];
    let setup = exchanges_of(response_setup(response, status, entries));
    let written = writes(body, bufs, taken);
    let send = exchanges_of(
        seq![HostCallView::SendDownstream { response, body, streaming: false }],
    );
    lemma_after_setup(host, response, status, entries);
    let host1 = host.after_all(setup);
    lemma_after_writes(host1, body, bufs, taken);
    let host2 = host1.after_all(written);
    lemma_after_all_add(host, setup, written);
    lemma_after_all_add(host, setup + written, send);
    assert(send.drop_last() =~= Seq::<Exchange>::empty());
    assert(host2.after_all(send.drop_last()) == host2);
    assert(host2.after_all(send) == host2.after(send.last()));
    assert(host.responses[response].headers + entries =~= entries);
    assert(host1.bodies[body] + accepted(bufs, taken) =~= accepted(bufs, taken));
}

/// A response that is built with a status and the pairs of a header
/// collection, never written to, designated and finalized, reaches the
/// downstream client as one reply with that status, exactly those headers in
/// their order, and an empty body.
///
/// This holds of a host that carries out each call as `HostView::after`
/// says, and that created `response` and `body` for this reply.
pub proof fn law_unwritten_reply(
    state: StateView,
    host: HostView,
    status: StatusCode,
    headers: Fields,
    response: ResponseHandle,
    body: BodyHandle,
)
    requires
        state.wf(),
        state.allows(Op::OutgoingResponseCalls { headers }),
        state.allows(Op::NewOutgoingResponse { response, body }),
        host.is_new_response(response),
        host.is_new_body(body),
    ensures
        ({
            let handle = state.next_response;
            let built = state.after(Op::NewOutgoingResponse { response, body });
            let designated = built.after(Op::SetResponseOutparam { designated: Some(handle) });
            let send = HostCallView::SendDownstream { response, body, streaming: false };
            &&& designated.allows(Op::DropResponseOutparam { outparam: RESPONSE_OUTPARAM })
            &&& designated.downstream_send() == Some(send)
            &&& host.after_all(
                exchanges_of(response_setup(response, status, state.fields[headers]).push(send)),
            ).sent == host.sent.push(
                Reply { status, headers: state.fields[headers], body: Seq::empty() },
            )
        }),
{
    let entries = state.fields[headers];
    let send = HostCallView::SendDownstream { response, body, streaming: false };
    let calls = exchanges_of(response_setup(response, status, entries).push(send));
    lemma_after_setup(host, response, status, entries);
    assert(calls.drop_last() =~= exchanges_of(response_setup(response, status, entries)));
    assert(host.responses[response].headers + entries =~= entries);
    assert(host.bodies[body] =~= Seq::<u8>::empty());
}

} // verus!
