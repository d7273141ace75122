//! Properties of the library that span its functions.
use vstd::prelude::*;

use crate::error::ClientError;
use crate::call::{begin_outcome, fail_outcome, AfterFailure, AttemptFailure, AttemptStart, CallAttempts};
use crate::body::{
    answered, deadline_step, stream_poll, stream_polls, stream_answer, follow, spec_from, start_step, BodyPoll, BodyState,
    BodyStep, Source,
};
use crate::discovery::addresses_of;
use crate::forward::{spec_request_action, spec_response_action, ForwardAction, ForwardEvent};
use crate::pool::{
    complete_outcome, invalidate_outcome_given, invalidate_outcome_reported, lookup_outcome, lookup_outcome_given, lookup_outcome_reported, Lookup,
    PoolEntry, SlotView,
};
use crate::transport::reports_closed;
use crate::bench::{
    histogram_count_at, histogram_high, histogram_len, latency_recorded, latency_since_recorded, read_since, LatencyHistogram,
};
use crate::time::duration_nanos;
use crate::tls::{is_h3_tls13_server, rustls_refuses_identity, serves_identity, KeyFormat, TlsConfig};
use crate::error::TransportError;
use core::time::Duration;
use std::time::Instant;
use crate::server::{request_step, ConnectionAction, ConnectionEvent, ConnectionRequests};
use std::sync::Arc;

verus! {

/// A service that no pair lists resolves to no address.
pub proof fn law_unknown_service_resolves_to_nothing<A>(entries: Seq<(Seq<char>, A)>, name: Seq<char>)
    requires
        forall|i: int| 0 <= i < entries.len() ==> #[trigger] entries[i].0 != name,
    ensures
        addresses_of(entries, name) == Seq::<A>::empty(),
    decreases entries.len(),
{
    if entries.len() > 0 {
        let rest = entries.drop_last();
        assert forall|i: int| 0 <= i < rest.len() implies #[trigger] rest[i].0 != name by {
            assert(rest[i] == entries[i]);
        }
        law_unknown_service_resolves_to_nothing(rest, name);
        assert(entries.last() == entries[entries.len() - 1]);
    }
}

/// Every address a service resolves to is listed under that service.
pub proof fn law_resolved_addresses_are_listed<A>(entries: Seq<(Seq<char>, A)>, name: Seq<char>, j: int)
    requires
        0 <= j < addresses_of(entries, name).len(),
    ensures
        exists|i: int| 0 <= i < entries.len() && entries[i].0 == name && entries[i].1
            == addresses_of(entries, name)[j],
    decreases entries.len(),
{
    let rest = entries.drop_last();
    let found = addresses_of(rest, name);
    if j < found.len() {
        law_resolved_addresses_are_listed(rest, name, j);
        let i = choose|i: int| 0 <= i < rest.len() && rest[i].0 == name && rest[i].1 == found[j];
        assert(entries[i] == rest[i]);
    } else {
        let i = entries.len() - 1;
        assert(entries[i] == entries.last());
    }
}

/// A body whose trailers are done never looks at the trailers again, and
/// one whose data is done never looks at the data again.
pub proof fn law_body_sources_are_read_until_done<D, T, E>(s: BodyState, from: Source)
    ensures
        s.trailers_done ==> spec_from::<D, T, E>(s, from) != BodyStep::<D, T, E>::Look(
            Source::Trailers,
        ),
        s.data_done ==> spec_from::<D, T, E>(s, from) != BodyStep::<D, T, E>::Look(Source::Data),
{
}

/// A body that has a deadline and is not closed looks at the deadline first
/// on every poll, whether or not it still watches the forwarding task and
/// whatever it has given; once the deadline has passed, that poll answers
/// with the deadline trailers (or the end, when the trailers were given)
/// and closes the body, which then answers the end.
pub proof fn law_deadline_is_looked_at_first<D, T, E>(s: BodyState)
    requires
        !s.closed,
        s.has_deadline,
    ensures
        start_step::<D, T, E>(s) == BodyStep::<D, T, E>::Look(Source::Deadline),
        deadline_step::<D, T, E>(s, true).0 == BodyStep::<D, T, E>::Answer(
            if s.trailers_done {
                BodyPoll::DeadlineEnd
            } else {
                BodyPoll::DeadlineTrailers
            },
        ),
        deadline_step::<D, T, E>(s, true).1.closed,
        start_step::<D, T, E>(deadline_step::<D, T, E>(s, true).1) == BodyStep::<D, T, E>::Answer(
            BodyPoll::End,
        ),
{
}

/// A body whose sources are all done answers that it is over.
pub proof fn law_finished_body_is_over<D, T, E>(s: BodyState, from: Source)
    requires
        !s.has_deadline,
        !s.watching_forward,
        s.data_done,
        s.trailers_done,
    ensures
        spec_from::<D, T, E>(s, from) == BodyStep::<D, T, E>::Answer(BodyPoll::End),
{
}

/// Forwarding passes a body on verbatim: on either side a data frame is
/// written as the very frame that was read, and trailers are written as
/// read and close the stream, after which nothing more is forwarded.
pub proof fn law_frames_are_forwarded_verbatim<D, T, E>(d: D, t: T, data_frame_received: bool)
    ensures
        spec_request_action(ForwardEvent::<D, T, E>::Data(d)) == ForwardAction::<D, T, E>::SendData(d),
        spec_response_action(data_frame_received, ForwardEvent::<D, T, E>::Data(d))
            == ForwardAction::<D, T, E>::SendData(d),
        spec_request_action(ForwardEvent::<D, T, E>::Trailers(t))
            == ForwardAction::<D, T, E>::SendTrailersAndStop(t),
        spec_response_action(data_frame_received, ForwardEvent::<D, T, E>::Trailers(t))
            == ForwardAction::<D, T, E>::SendTrailersAndStop(t),
{
}

/// The server finishes a response stream at the end of the body exactly
/// when it forwarded a data frame; after a failure it always finishes it.
pub proof fn law_response_finished_after_data<D, T, E>(data_frame_received: bool, e: E)
    ensures
        (spec_response_action(data_frame_received, ForwardEvent::<D, T, E>::BodyEnded)
            == ForwardAction::<D, T, E>::FinishAndStop) == data_frame_received,
        spec_response_action(data_frame_received, ForwardEvent::<D, T, E>::BodyFailed(e))
            == ForwardAction::<D, T, E>::FinishAndStop,
        spec_response_action(data_frame_received, ForwardEvent::<D, T, E>::SendFailed(e))
            == ForwardAction::<D, T, E>::FinishAndStop,
{
}

/// The client finishes a request stream only when the request body ended,
/// and reports every failure, as it was, to the response side.
pub proof fn law_request_finished_only_at_end<D, T, E>(ev: ForwardEvent<D, T, E>)
    ensures
        spec_request_action(ev) == ForwardAction::<D, T, E>::FinishAndStop <==> ev is BodyEnded,
        ev matches ForwardEvent::BodyFailed(e) ==> spec_request_action(ev)
            == ForwardAction::<D, T, E>::ReportAndStop(e),
        ev matches ForwardEvent::SendFailed(e) ==> spec_request_action(ev)
            == ForwardAction::<D, T, E>::ReportAndStop(e),
{
}

/// A connection never runs more request handlers than its limit: over any
/// run of the request loop from a fresh connection, every step keeps the
/// running handlers within the limit, and a request is handled only while
/// there is room for it.
pub proof fn law_handlers_stay_within_the_limit(
    states: Seq<ConnectionRequests>,
    events: Seq<ConnectionEvent>,
    actions: Seq<ConnectionAction>,
)
    requires
        states.len() == events.len() + 1,
        actions.len() == events.len(),
        states[0].running() == 0,
        forall|i: int|
            0 <= i < events.len() ==> #[trigger] request_step(
                states[i],
                events[i],
                actions[i],
                states[i + 1],
            ),
    ensures
        forall|i: int| 0 <= i < states.len() ==> #[trigger] states[i].running() <= states[i].limit(),
        forall|i: int|
            0 <= i < actions.len() && #[trigger] actions[i] is HandleRequest ==> states[i].running()
                < states[i].limit(),
    decreases events.len(),
{
    if events.len() > 0 {
        let n = events.len() - 1;
        law_handlers_stay_within_the_limit(states.drop_last(), events.drop_last(), actions.drop_last());
        assert forall|i: int| 0 <= i < states.len() implies #[trigger] states[i].running() <= states[i].limit() by {
            if i < states.len() - 1 {
                assert(states.drop_last()[i] == states[i]);
            } else {
                assert(states.drop_last()[n] == states[n]);
                assert(request_step(states[n], events[n], actions[n], states[n + 1]));
            }
        }
        assert forall|i: int| 0 <= i < actions.len() && #[trigger] actions[i] is HandleRequest implies states[i].running()
            < states[i].limit() by {
            assert(request_step(states[i], events[i], actions[i], states[i + 1]));
        }
    }
}

/// A caller that finds the connection to an address being made never
/// connects itself: it waits, and stays among the waiting callers.
pub proof fn law_connecting_address_is_waited_for<K, E, W>(
    m0: Map<K, SlotView<E, W>>,
    key: K,
    waiter: W,
    r: Lookup<E>,
    m1: Map<K, SlotView<E, W>>,
)
    requires
        m0.dom().contains(key),
        m0[key] is Connecting,
        lookup_outcome(m0, key, waiter, r, m1),
    ensures
        r is Wait,
        m1.dom().contains(key),
        m1[key] matches SlotView::Connecting(ws) && ws.last() == waiter && ws.drop_last()
            == m0[key]->Connecting_0,
{
    let ws = m0[key]->Connecting_0;
    assert(ws.push(waiter).drop_last() =~= ws);
}

/// A failed connection or send is retried while attempts are left; once
/// they have run out, the call fails with `RetriesExhausted`, carrying the
/// number of attempts and the text of that failure.
pub proof fn law_transient_failure_is_retried_or_reported(
    s0: CallAttempts,
    failure: AttemptFailure,
    r1: AfterFailure,
    s1: CallAttempts,
    r2: AttemptStart,
    s2: CallAttempts,
)
    requires
        failure is Connect || failure is Send,
        fail_outcome(s0, failure, r1, s1),
        begin_outcome(s1, r2, s2),
    ensures
        r1 is InvalidateAndRetry,
        s0.started() < s0.max_attempts() ==> r2 is Attempt && s2.started() == s0.started() + 1,
        s0.started() >= s0.max_attempts() ==> (r2 matches AttemptStart::GiveUp(
            ClientError::RetriesExhausted { attempts, last_error },
        ) && attempts == s0.max_attempts() && match failure {
            AttemptFailure::Connect(t) => last_error@ == t@,
            AttemptFailure::Send(t) => last_error@ == t@,
            _ => false,
        }),
{
}

/// A call makes at most its allowed number of attempts: beginning an
/// attempt, and taking in a failure, keep the attempts begun within it.
pub proof fn law_attempts_stay_within_the_limit(
    s0: CallAttempts,
    r1: AttemptStart,
    s1: CallAttempts,
    failure: AttemptFailure,
    r2: AfterFailure,
    s2: CallAttempts,
)
    requires
        s0.started() <= s0.max_attempts(),
        begin_outcome(s0, r1, s1),
        fail_outcome(s1, failure, r2, s2),
    ensures
        s1.started() <= s1.max_attempts(),
        s2.started() <= s2.max_attempts(),
        r1 is Attempt <==> s0.started() < s0.max_attempts(),
{
}

/// A connection, once established, is reused while it is open: after the
/// first caller's attempt ends with an entry, a caller that finds it open is
/// given that very entry and changes nothing, and one that finds it closed
/// makes a new attempt that later callers wait for.
pub proof fn law_established_connection_is_reused<K, E, W>(
    m0: Map<K, SlotView<E, W>>,
    key: K,
    w1: W,
    r1: Lookup<E>,
    m1: Map<K, SlotView<E, W>>,
    entry: Arc<E>,
    handed: Seq<W>,
    m2: Map<K, SlotView<E, W>>,
    w2: W,
    open: bool,
    r2: Lookup<E>,
    m3: Map<K, SlotView<E, W>>,
)
    requires
        !m0.dom().contains(key),
        lookup_outcome(m0, key, w1, r1, m1),
        complete_outcome(m1, key, Some(entry), handed, m2),
        lookup_outcome_given(m2, key, w2, open, r2, m3),
    ensures
        handed == seq![w1],
        m2 == m0.insert(key, SlotView::Ready(*entry)),
        open ==> (r2 matches Lookup::Reuse(a) && *a == *entry && m3 == m2),
        !open ==> (r2 is Connect && m3 == m0.insert(key, SlotView::Connecting(seq![w2]))),
{
    assert(m1.get(key) == Some(SlotView::<E, W>::Connecting(seq![w1])));
    assert(m2 =~= m0.insert(key, SlotView::Ready(*entry)));
    if !open {
        assert(m3 =~= m0.insert(key, SlotView::Connecting(seq![w2])));
    }
}

/// A ready connection is handed out for reuse only when it answered that it
/// is open, and a new one is made in its place only when it answered that
/// it has closed. One that can only answer open is reused as it is, with
/// the slots unchanged; one that can only answer closed is replaced by a
/// connection attempt that the caller makes and waits for.
pub proof fn law_open_connection_is_reused<K, S, W>(
    before: Map<K, SlotView<PoolEntry<S>, W>>,
    key: K,
    waiter: W,
    r: Lookup<PoolEntry<S>>,
    after: Map<K, SlotView<PoolEntry<S>, W>>,
    e: PoolEntry<S>,
)
    requires
        before.get(key) == Some(SlotView::<PoolEntry<S>, W>::Ready(e)),
        lookup_outcome_reported(before, key, waiter, r, after),
    ensures
        r is Reuse ==> reports_closed(e.quic, false),
        r is Connect ==> reports_closed(e.quic, true),
        r is Reuse || r is Connect,
        reports_closed(e.quic, false) && !reports_closed(e.quic, true) ==> (r matches Lookup::Reuse(a) && *a
            == e && after == before),
        reports_closed(e.quic, true) && !reports_closed(e.quic, false) ==> (r is Connect && after
            == before.insert(key, SlotView::Connecting(seq![waiter]))),
{
    let closed = choose|closed: bool|
        #[trigger] reports_closed(e.quic, closed) && lookup_outcome_given(before, key, waiter, !closed, r, after);
    assert(reports_closed(e.quic, closed));
}

/// Invalidating a slot drops it only when it holds a ready connection that
/// answered that it has closed, and keeps a ready connection that answered
/// that it is open; a slot that is being connected, or no slot, is left as
/// it is.
pub proof fn law_only_closed_connection_is_dropped<K, S, W>(
    before: Map<K, SlotView<PoolEntry<S>, W>>,
    key: K,
    after: Map<K, SlotView<PoolEntry<S>, W>>,
)
    requires
        invalidate_outcome_reported(before, key, after),
    ensures
        !(before.get(key) matches Some(SlotView::Ready(_))) ==> after == before,
        before.get(key) matches Some(SlotView::Ready(e)) ==> {
            &&& after == before || after == before.remove(key)
            &&& !after.dom().contains(key) ==> reports_closed(e.quic, true)
            &&& after.dom().contains(key) ==> after == before && reports_closed(e.quic, false)
        },
{
    if let Some(SlotView::Ready(e)) = before.get(key) {
        let closed = choose|closed: bool|
            #[trigger] reports_closed(e.quic, closed) && invalidate_outcome_given(before, key, closed, after);
        assert(reports_closed(e.quic, closed));
        if closed {
            assert(!before.remove(key).dom().contains(key));
        } else {
            assert(before.dom().contains(key));
        }
    }
}

/// Recording the latency since `start` records the whole microseconds that
/// the clock read: when the reading is `nanos` nanoseconds and the
/// histogram tracks its sample, that sample gains one and the histogram
/// one more sample.
pub proof fn law_latency_is_recorded_in_microseconds(
    before: LatencyHistogram,
    start: Instant,
    after: LatencyHistogram,
    nanos: nat,
)
    requires
        latency_since_recorded(before, start, after),
        forall|e: Duration| #[trigger] read_since(start, e) ==> duration_nanos(e) == nanos,
        nanos / 1000 <= histogram_high(before),
        histogram_count_at(before, (nanos / 1000) as u64) < u64::MAX,
        histogram_len(before) < u64::MAX,
    ensures
        histogram_count_at(after, (nanos / 1000) as u64) == histogram_count_at(before, (nanos / 1000) as u64) + 1,
        histogram_len(after) == histogram_len(before) + 1,
{
    let e = choose|e: Duration| #[trigger] read_since(start, e) && latency_recorded(before, e, after);
    assert(duration_nanos(e) == nanos);
}

/// A TLS server with an identity is refused only by rustls: for a key of
/// any encoding (PKCS#1, SEC1 or PKCS#8), when rustls does not refuse the
/// identity, the server configuration is made and serves that identity
/// over HTTP/3 with TLS 1.3; a refusal carries the text that rustls gave.
pub proof fn law_identity_is_refused_only_by_rustls(
    chain: Seq<Seq<u8>>,
    key: (KeyFormat, Seq<u8>),
    r: Result<TlsConfig, TransportError>,
)
    requires
        match r {
            Ok(t) => is_h3_tls13_server(t) && serves_identity(t, chain, key),
            Err(e) => e is Tls,
        },
        r matches Err(e) ==> e matches TransportError::Tls(m) && rustls_refuses_identity(chain, key, m@),
    ensures
        (forall|m: Seq<char>| !#[trigger] rustls_refuses_identity(chain, key, m)) ==> (r matches Ok(t)
            && is_h3_tls13_server(t) && serves_identity(t, chain, key)),
        r matches Err(TransportError::Tls(m)) ==> rustls_refuses_identity(chain, key, m@),
{
}

/// A body that has given nothing of its data or trailers, over a stream
/// that is ready: a poll passes to the data frames and yields the next one
/// as it was read.
proof fn lemma_poll_yields_next_frame<D, T, E>(s: BodyState, data: Seq<D>, trailers: Option<T>)
    requires
        !s.closed,
        !s.data_done,
        !s.trailers_done,
        data.len() > 0,
    ensures
        stream_poll::<D, T, E>(s, data, trailers, true) == (
            BodyPoll::<D, T, E>::Data(data[0]),
            s,
            data.drop_first(),
        ),
{
    reveal_with_fuel(follow, 5);
}

/// Such a body, over a stream that has nothing yet, answers that nothing is
/// ready and stays as it is.
proof fn lemma_poll_waits<D, T, E>(s: BodyState, data: Seq<D>, trailers: Option<T>)
    requires
        !s.closed,
        !s.data_done,
        !s.trailers_done,
    ensures
        stream_poll::<D, T, E>(s, data, trailers, false) == (BodyPoll::<D, T, E>::Pending, s, data),
{
    reveal_with_fuel(follow, 5);
}

/// Such a body whose data frames are all given, over a stream that is
/// ready, passes to the trailers, yields them or the end, and is then done.
proof fn lemma_poll_after_frames<D, T, E>(s: BodyState, data: Seq<D>, trailers: Option<T>)
    requires
        !s.closed,
        !s.data_done,
        !s.trailers_done,
        data.len() == 0,
    ensures
        stream_poll::<D, T, E>(s, data, trailers, true).0 == stream_answer::<D, T, E>(data, trailers, 0),
        stream_poll::<D, T, E>(s, data, trailers, true).1.data_done,
        stream_poll::<D, T, E>(s, data, trailers, true).1.trailers_done,
{
    reveal_with_fuel(follow, 5);
}

/// A body that is done answers the end and stays as it is, whether or not
/// the stream is ready.
proof fn lemma_poll_when_done<D, T, E>(s: BodyState, data: Seq<D>, trailers: Option<T>, ready: bool)
    requires
        s.data_done,
        s.trailers_done,
    ensures
        stream_poll::<D, T, E>(s, data, trailers, ready) == (BodyPoll::<D, T, E>::End, s, data),
{
    reveal_with_fuel(follow, 5);
}

proof fn lemma_polls_when_done<D, T, E>(s: BodyState, data: Seq<D>, trailers: Option<T>, ready: Seq<bool>)
    requires
        s.data_done,
        s.trailers_done,
    ensures
        stream_polls::<D, T, E>(s, data, trailers, ready).len() == ready.len(),
        forall|i: int| 0 <= i < ready.len() ==> #[trigger] stream_polls::<D, T, E>(s, data, trailers, ready)[i]
            == BodyPoll::<D, T, E>::End,
    decreases ready.len(),
{
    if ready.len() > 0 {
        lemma_poll_when_done::<D, T, E>(s, data, trailers, ready[0]);
        lemma_polls_when_done::<D, T, E>(s, data, trailers, ready.drop_first());
        let rest = stream_polls::<D, T, E>(s, data, trailers, ready.drop_first());
        assert(stream_polls::<D, T, E>(s, data, trailers, ready) == seq![BodyPoll::<D, T, E>::End].add(rest));
    }
}

/// Counting the answers of a run that starts with `a`: the first one
/// counts when it is not `Pending`, the rest as in the run without it.
proof fn lemma_answered_after_first<D, T, E>(a: BodyPoll<D, T, E>, rest: Seq<BodyPoll<D, T, E>>, i: int)
    requires
        0 <= i <= rest.len(),
    ensures
        answered(seq![a].add(rest), i + 1) == answered(rest, i) + if a is Pending {
            0nat
        } else {
            1nat
        },
    decreases i,
{
    let all = seq![a].add(rest);
    if i > 0 {
        lemma_answered_after_first(a, rest, i - 1);
        assert(all[i] == rest[i - 1]);
    } else {
        assert(all[0] == a);
        reveal_with_fuel(answered, 2);
    }
}

/// A body gives its stream as it was sent: over a stream whose deadline
/// does not pass and whose forwarding task reports nothing, each poll of a
/// body that has given nothing yet either finds nothing ready, or answers
/// the next of the data frames in order and unchanged, then the trailers if
/// there are any, then the end on every later poll; a poll at which the
/// stream is ready always answers. No data frame comes after the trailers
/// or the end.
pub proof fn law_body_yields_the_stream_in_order<D, T, E>(
    s: BodyState,
    data: Seq<D>,
    trailers: Option<T>,
    ready: Seq<bool>,
)
    requires
        !s.closed,
        !s.data_done,
        !s.trailers_done,
    ensures
        stream_polls::<D, T, E>(s, data, trailers, ready).len() == ready.len(),
        forall|i: int|
            0 <= i < ready.len() && ready[i] ==> !(#[trigger] stream_polls::<D, T, E>(
                s,
                data,
                trailers,
                ready,
            )[i] is Pending),
        forall|i: int|
            0 <= i < ready.len() ==> (#[trigger] stream_polls::<D, T, E>(s, data, trailers, ready)[i]
                is Pending || stream_polls::<D, T, E>(s, data, trailers, ready)[i] == stream_answer::<
                D,
                T,
                E,
            >(data, trailers, answered(stream_polls::<D, T, E>(s, data, trailers, ready), i) as int)),
    decreases ready.len(),
{
    if ready.len() > 0 {
        let all = stream_polls::<D, T, E>(s, data, trailers, ready);
        let later = ready.drop_first();
        if !ready[0] {
            lemma_poll_waits::<D, T, E>(s, data, trailers);
            law_body_yields_the_stream_in_order::<D, T, E>(s, data, trailers, later);
            let rest = stream_polls::<D, T, E>(s, data, trailers, later);
            assert(all == seq![BodyPoll::<D, T, E>::Pending].add(rest));
            assert forall|i: int| 1 <= i < ready.len() implies (#[trigger] all[i] is Pending || all[i]
                == stream_answer::<D, T, E>(data, trailers, answered(all, i) as int)) && (ready[i]
                ==> !(all[i] is Pending)) by {
                lemma_answered_after_first(BodyPoll::<D, T, E>::Pending, rest, i - 1);
                assert(all[i] == rest[i - 1]);
                assert(later[i - 1] == ready[i]);
            }
        } else if data.len() > 0 {
            lemma_poll_yields_next_frame::<D, T, E>(s, data, trailers);
            let rest_data = data.drop_first();
            law_body_yields_the_stream_in_order::<D, T, E>(s, rest_data, trailers, later);
            let rest = stream_polls::<D, T, E>(s, rest_data, trailers, later);
            let first = BodyPoll::<D, T, E>::Data(data[0]);
            assert(all == seq![first].add(rest));
            assert forall|i: int| 1 <= i < ready.len() implies (#[trigger] all[i] is Pending || all[i]
                == stream_answer::<D, T, E>(data, trailers, answered(all, i) as int)) && (ready[i]
                ==> !(all[i] is Pending)) by {
                lemma_answered_after_first(first, rest, i - 1);
                assert(all[i] == rest[i - 1]);
                assert(later[i - 1] == ready[i]);
                let x = answered(rest, i - 1) as int;
                if x < rest_data.len() {
                    assert(rest_data[x] == data[x + 1]);
                }
            }
        } else {
            lemma_poll_after_frames::<D, T, E>(s, data, trailers);
            let p = stream_poll::<D, T, E>(s, data, trailers, true);
            lemma_polls_when_done::<D, T, E>(p.1, p.2, trailers, later);
            let rest = stream_polls::<D, T, E>(p.1, p.2, trailers, later);
            assert(all == seq![p.0].add(rest));
            assert forall|i: int| 1 <= i < ready.len() implies (#[trigger] all[i] is Pending || all[i]
                == stream_answer::<D, T, E>(data, trailers, answered(all, i) as int)) && (ready[i]
                ==> !(all[i] is Pending)) by {
                lemma_answered_after_first(p.0, rest, i - 1);
                assert(all[i] == rest[i - 1]);
            }
        }
    }
}

/// The slots after the first `i` callers of a run asked for an address
/// that had no slot: the address is being connected, and the `i` callers
/// wait, in the order they came; the first was told to connect and the
/// others to wait.
proof fn lemma_callers_queue_up<K, E, W>(
    maps: Seq<Map<K, SlotView<E, W>>>,
    key: K,
    waiters: Seq<W>,
    lookups: Seq<Lookup<E>>,
    i: int,
)
    requires
        maps.len() == waiters.len() + 1,
        lookups.len() == waiters.len(),
        !maps[0].dom().contains(key),
        forall|j: int|
            #![trigger lookups[j]]
            0 <= j < waiters.len() ==> lookup_outcome(maps[j], key, waiters[j], lookups[j], maps[j + 1]),
        1 <= i <= waiters.len(),
    ensures
        maps[i] == maps[0].insert(key, SlotView::Connecting(waiters.take(i))),
        lookups[0] is Connect,
        forall|j: int| 1 <= j < i ==> #[trigger] lookups[j] is Wait,
    decreases i,
{
    assert(lookup_outcome(maps[0], key, waiters[0], lookups[0], maps[1]));
    if i == 1 {
        assert(waiters.take(1) =~= seq![waiters[0]]);
    } else {
        lemma_callers_queue_up(maps, key, waiters, lookups, i - 1);
        let before = maps[i - 1];
        assert(before.get(key) == Some(SlotView::<E, W>::Connecting(waiters.take(i - 1))));
        assert(lookup_outcome(before, key, waiters[i - 1], lookups[i - 1], maps[i]));
        assert(waiters.take(i - 1).push(waiters[i - 1]) =~= waiters.take(i));
        assert(maps[i] =~= maps[0].insert(key, SlotView::Connecting(waiters.take(i))));
    }
}

/// One address has at most one connection attempt in flight, for any
/// number of callers: of the callers that ask for an address with no slot
/// before its attempt ends, the first connects and every other waits; ending
/// the attempt hands all of them back, in the order they came, so that none
/// is left waiting. With an entry the address is then ready with it;
/// without one the slots are as they were before the first caller came.
pub proof fn law_single_flight<K, E, W>(
    maps: Seq<Map<K, SlotView<E, W>>>,
    key: K,
    waiters: Seq<W>,
    lookups: Seq<Lookup<E>>,
    entry: Option<Arc<E>>,
    handed: Seq<W>,
    last: Map<K, SlotView<E, W>>,
)
    requires
        waiters.len() >= 1,
        maps.len() == waiters.len() + 1,
        lookups.len() == waiters.len(),
        !maps[0].dom().contains(key),
        forall|j: int|
            #![trigger lookups[j]]
            0 <= j < waiters.len() ==> lookup_outcome(maps[j], key, waiters[j], lookups[j], maps[j + 1]),
        complete_outcome(maps[waiters.len() as int], key, entry, handed, last),
    ensures
        lookups[0] is Connect,
        forall|j: int| 1 <= j < lookups.len() ==> #[trigger] lookups[j] is Wait,
        handed == waiters,
        last == match entry {
            Some(e) => maps[0].insert(key, SlotView::Ready(*e)),
            None => maps[0],
        },
{
    let n = waiters.len() as int;
    lemma_callers_queue_up(maps, key, waiters, lookups, n);
    assert(waiters.take(n) =~= waiters);
    match entry {
        Some(e) => {
            assert(last =~= maps[0].insert(key, SlotView::Ready(*e)));
        },
        None => {
            assert(last =~= maps[0]);
        },
    }
}

} // verus!
