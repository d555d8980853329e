//! What holds of the registry whatever the order of events.

use vstd::prelude::*;
use crate::connection::{HttpConnectionEffectsView, HttpConnectionStateView, HttpConnectionView};
use crate::state::StateView;
use crate::types::{
    HttpConnectionId,
    HttpFailureReasonView,
    HttpRequestTimeoutMs,
    HttpRequestView,
    HttpResponseView,
    HttpResultView,
};

verus! {

/// What a caller hands over when it issues a request.
pub struct IssuedRequest {
    pub request: HttpRequestView,
    pub callback: Option<Seq<char>>,
    pub timeout_ms: Option<HttpRequestTimeoutMs>,
}

/// A connection that has an outcome keeps it: whoever reports whatever
/// for it afterwards, the registry stays as it is and the host has nothing
/// to do. In particular a response that arrives a second time changes
/// nothing and runs no handler again.
pub proof fn lemma_outcome_is_final(
    state: StateView,
    principal: Seq<u8>,
    id: HttpConnectionId,
    result: HttpResultView,
)
    requires
        state.wf(),
        state.holds(id),
        state.connection(id).state.is_terminal(),
    ensures
        state.update_connection_state(principal, id, result) == state,
        state.update_effects(principal, id, result) == HttpConnectionEffectsView::none(),
{
    if state.is_assigned(principal, id) {
        let i = state.index_of(principal);
        state.lemma_owner_of(i, id);
        let proxy = state.proxies[i];
        assert(proxy.connections[id].after(result) == proxy.connections[id]);
        assert(proxy.connections.insert(id, proxy.connections[id]) =~= proxy.connections);
        assert(state.proxies.update(i, proxy) =~= state.proxies);
    }
}

/// Once the proxy that holds a connection has reported a result for it,
/// the connection has an outcome. If the connection was waiting, the
/// result is that outcome: a caller is given the response that was
/// reported, or told the reason of the failure that was reported,
/// whichever reason it is. The request of the connection stays as it was.
pub proof fn lemma_reported_outcome_is_terminal(
    state: StateView,
    principal: Seq<u8>,
    id: HttpConnectionId,
    result: HttpResultView,
)
    requires
        state.wf(),
        state.is_assigned(principal, id),
    ensures
        state.update_connection_state(principal, id, result).wf(),
        state.update_connection_state(principal, id, result).holds(id),
        state.update_connection_state(principal, id, result).connection(id) == state.connection(
            id,
        ).after(result),
        state.update_connection_state(principal, id, result).connection(id).state.is_terminal(),
        state.update_connection_state(principal, id, result).get_http_connection(id)
            == state.get_http_connection(id),
        state.connection(id).state is WaitingForResponse ==> state.update_connection_state(
            principal,
            id,
            result,
        ).get_http_response(id) == match result {
            HttpResultView::Success(response) => Ok::<HttpResponseView, HttpFailureReasonView>(
                response,
            ),
            HttpResultView::Failure(reason) => Err::<HttpResponseView, HttpFailureReasonView>(
                reason,
            ),
        },
        state.update_effects(principal, id, result).callback is Some ==> result is Success,
{
    let after = state.update_connection_state(principal, id, result);
    let i = state.index_of(principal);
    state.lemma_update_connection_state_wf(principal, id, result);
    state.lemma_owner_of(i, id);
    assert(after.proxies[i].connections.contains_key(id));
    after.lemma_owner_of(i, id);
    state.lemma_assigned(principal, id);
}

/// Handing in the same response twice is the same as handing it in once:
/// after the first time the registry no longer changes, what a caller is
/// told about the connection stays the same, and no handler runs again.
pub proof fn lemma_response_twice(
    state: StateView,
    principal: Seq<u8>,
    id: HttpConnectionId,
    response: HttpResponseView,
)
    requires
        state.wf(),
    ensures
        ({
            let once = state.update_connection_state(
                principal,
                id,
                HttpResultView::Success(response),
            );
            let twice = once.update_connection_state(
                principal,
                id,
                HttpResultView::Success(response),
            );
            &&& twice == once
            &&& twice.get_http_response(id) == once.get_http_response(id)
            &&& once.update_effects(principal, id, HttpResultView::Success(response))
                == HttpConnectionEffectsView::none()
        }),
{
    let result = HttpResultView::Success(response);
    let once = state.update_connection_state(principal, id, result);
    state.lemma_update_connection_state_wf(principal, id, result);
    if state.is_assigned(principal, id) {
        lemma_reported_outcome_is_terminal(state, principal, id, result);
        lemma_outcome_is_final(once, principal, id, result);
    } else {
        assert(once == state);
    }
}

/// What a proxy reports for a connection that it does not hold changes
/// nothing, whether another proxy holds the connection or none does: the
/// registry stays as it is, a caller is told what it was told before, and
/// the host has nothing to do.
pub proof fn lemma_report_from_unassigned_proxy(
    state: StateView,
    principal: Seq<u8>,
    id: HttpConnectionId,
    result: HttpResultView,
)
    requires
        !state.is_assigned(principal, id),
    ensures
        state.update_connection_state(principal, id, result) == state,
        state.update_connection_state(principal, id, result).get_http_response(id)
            == state.get_http_response(id),
        state.update_effects(principal, id, result) == HttpConnectionEffectsView::none(),
{
}

/// What a proxy reports for one connection leaves every other connection
/// as it was.
pub proof fn lemma_report_leaves_other_connections(
    state: StateView,
    principal: Seq<u8>,
    id: HttpConnectionId,
    result: HttpResultView,
    other: HttpConnectionId,
)
    requires
        state.wf(),
        other != id,
    ensures
        state.update_connection_state(principal, id, result).get_http_response(other)
            == state.get_http_response(other),
        state.update_connection_state(principal, id, result).get_http_connection(other)
            == state.get_http_connection(other),
{
    let after = state.update_connection_state(principal, id, result);
    state.lemma_update_connection_state_wf(principal, id, result);
    if state.is_assigned(principal, id) {
        let i = state.index_of(principal);
        if state.holds(other) {
            let owner = state.owner_of(other);
            state.lemma_owner_of(owner, other);
            assert(after.proxies[owner].connections.contains_key(other));
            after.lemma_owner_of(owner, other);
        } else {
            if after.holds(other) {
                let owner = after.owner_of(other);
                assert(after.proxies[owner].connections.contains_key(other));
                assert(state.proxies[owner].connections.contains_key(other));
            }
        }
    }
}

/// A connection whose deadline passes while it waits fails with a timeout,
/// and stays so: a response, an error or another timeout that is reported
/// for it afterwards, by whomever, does not change what a caller is told.
pub proof fn lemma_timeout_is_final(
    state: StateView,
    principal: Seq<u8>,
    id: HttpConnectionId,
    reporter: Seq<u8>,
    later: HttpResultView,
)
    requires
        state.wf(),
        state.is_assigned(principal, id),
        state.connection(id).state is WaitingForResponse,
    ensures
        ({
            let timed_out = state.update_connection_state(
                principal,
                id,
                HttpResultView::Failure(HttpFailureReasonView::RequestTimeout),
            );
            &&& timed_out.get_http_response(id) == Err::<HttpResponseView, HttpFailureReasonView>(
                HttpFailureReasonView::RequestTimeout,
            )
            &&& timed_out.update_connection_state(reporter, id, later) == timed_out
            &&& timed_out.update_connection_state(reporter, id, later).get_http_response(id)
                == Err::<HttpResponseView, HttpFailureReasonView>(
                HttpFailureReasonView::RequestTimeout,
            )
        }),
{
    let timeout = HttpResultView::Failure(HttpFailureReasonView::RequestTimeout);
    let timed_out = state.update_connection_state(principal, id, timeout);
    lemma_reported_outcome_is_terminal(state, principal, id, timeout);
    lemma_outcome_is_final(timed_out, reporter, id, later);
}

/// A connection is not found once the proxy that holds it has gone.
pub proof fn lemma_connection_goes_with_proxy(
    state: StateView,
    principal: Seq<u8>,
    id: HttpConnectionId,
)
    requires
        state.wf(),
        state.is_assigned(principal, id),
    ensures
        !state.remove_client(principal).holds(id),
        state.remove_client(principal).get_http_response(id) == Err::<
            HttpResponseView,
            HttpFailureReasonView,
        >(HttpFailureReasonView::ConnectionIdNotFound),
        state.remove_client(principal).get_http_connection(id) == None::<HttpRequestView>,
{
    let after = state.remove_client(principal);
    let k = state.index_of(principal);
    if after.holds(id) {
        let owner = after.owner_of(id);
        assert(after.proxies[owner].connections.contains_key(id));
        let owner0 = if owner < k {
            owner
        } else {
            owner + 1
        };
        assert(after.proxies[owner] == state.proxies[owner0]);
        assert(state.proxies[owner0].connections.contains_key(id));
        assert(state.proxies[k].connections.contains_key(id));
    }
}

/// What can happen to the registry.
pub enum RegistryEvent {
    ProxyConnected(Seq<u8>),
    ProxyDisconnected(Seq<u8>),
    RequestIssued(IssuedRequest),
    /// A proxy reports an outcome for a connection: a response, an error,
    /// or the passing of the deadline.
    OutcomeReported(Seq<u8>, HttpConnectionId, HttpResultView),
}

/// The registry after an event.
pub open spec fn after_event(state: StateView, event: RegistryEvent) -> StateView {
    match event {
        RegistryEvent::ProxyConnected(principal) => state.add_client(principal),
        RegistryEvent::ProxyDisconnected(principal) => state.remove_client(principal),
        RegistryEvent::RequestIssued(issued) => state.assign_connection(
            issued.request,
            issued.callback,
            issued.timeout_ms,
        ),
        RegistryEvent::OutcomeReported(principal, id, result) => state.update_connection_state(
            principal,
            id,
            result,
        ),
    }
}

/// The registry after the given events, one after another.
pub open spec fn after_events(state: StateView, events: Seq<RegistryEvent>) -> StateView
    decreases events.len(),
{
    if events.len() == 0 {
        state
    } else {
        after_event(after_events(state, events.drop_last()), events.last())
    }
}

/// An event keeps the registry well-formed; it holds afterwards no id
/// that it did not hold before, but for the fresh id of a request that
/// was taken; and only a request that is issued while an id is left moves
/// the counter, by one.
pub proof fn lemma_event(state: StateView, event: RegistryEvent, id: HttpConnectionId)
    requires
        state.wf(),
    ensures
        after_event(state, event).wf(),
        after_event(state, event).next_connection_id == state.next_connection_id + if event
            is RequestIssued && state.has_id_left() {
            1int
        } else {
            0int
        },
        after_event(state, event).holds(id) ==> state.holds(id) || (event is RequestIssued
            && state.takes_request() && id == state.fresh_id()),
{
    let after = after_event(state, event);
    match event {
        RegistryEvent::ProxyConnected(principal) => {
            state.lemma_add_client_wf(principal);
            if after.holds(id) {
                let i = after.owner_of(id);
                assert(after.proxies[i].connections.contains_key(id));
                if state.is_connected(principal) {
                    assert(state.proxies[i].connections.contains_key(id));
                } else {
                    assert(state.proxies[i].connections.contains_key(id));
                }
            }
        },
        RegistryEvent::ProxyDisconnected(principal) => {
            state.lemma_remove_client_wf(principal);
            if after.holds(id) && state.is_connected(principal) {
                let i = after.owner_of(id);
                let k = state.index_of(principal);
                let i0 = if i < k {
                    i
                } else {
                    i + 1
                };
                assert(after.proxies[i].connections.contains_key(id));
                assert(after.proxies[i] == state.proxies[i0]);
                assert(state.proxies[i0].connections.contains_key(id));
            }
        },
        RegistryEvent::RequestIssued(issued) => {
            state.lemma_assign_connection_wf(issued.request, issued.callback, issued.timeout_ms);
            if after.holds(id) && !(state.takes_request() && id == state.fresh_id()) {
                let i = after.owner_of(id);
                assert(after.proxies[i].connections.contains_key(id));
                assert(state.proxies[i].connections.contains_key(id));
            }
        },
        RegistryEvent::OutcomeReported(principal, key, result) => {
            state.lemma_update_connection_state_wf(principal, key, result);
            if after.holds(id) {
                let i = after.owner_of(id);
                assert(after.proxies[i].connections.contains_key(id));
                assert(state.proxies[i].connections.contains_key(id));
            }
        },
    }
}

/// Whatever happens, the registry stays well-formed: no proxy stands in
/// it twice, and every connection in it is held by one proxy only. The
/// counter of ids never falls.
pub proof fn lemma_registry_stays_well_formed(state: StateView, events: Seq<RegistryEvent>)
    requires
        state.wf(),
    ensures
        after_events(state, events).wf(),
        after_events(state, events).next_connection_id >= state.next_connection_id,
    decreases events.len(),
{
    if events.len() > 0 {
        lemma_registry_stays_well_formed(state, events.drop_last());
        lemma_event(after_events(state, events.drop_last()), events.last(), 0);
    }
}

/// Whatever has happened, a connection is held by one proxy only.
pub proof fn lemma_connection_has_one_owner(
    state: StateView,
    events: Seq<RegistryEvent>,
    first: Seq<u8>,
    second: Seq<u8>,
    id: HttpConnectionId,
)
    requires
        state.wf(),
        after_events(state, events).is_assigned(first, id),
        after_events(state, events).is_assigned(second, id),
    ensures
        first == second,
{
    lemma_registry_stays_well_formed(state, events);
    after_events(state, events).lemma_single_owner(first, second, id);
}

/// The registry as it is before the event at position `k` happens.
pub open spec fn state_before(state: StateView, events: Seq<RegistryEvent>, k: int) -> StateView {
    after_events(state, events.take(k))
}

/// Whether the event at position `k` is a request that is taken.
pub open spec fn request_taken(state: StateView, events: Seq<RegistryEvent>, k: int) -> bool {
    events[k] is RequestIssued && state_before(state, events, k).takes_request()
}

/// The id that a request issued at position `k` gets.
pub open spec fn id_taken(state: StateView, events: Seq<RegistryEvent>, k: int) -> HttpConnectionId {
    state_before(state, events, k).fresh_id()
}

/// The registry after the event at position `k` is the registry before
/// it, after that event.
pub proof fn lemma_state_before_next(state: StateView, events: Seq<RegistryEvent>, k: int)
    requires
        0 <= k < events.len(),
    ensures
        state_before(state, events, k + 1) == after_event(
            state_before(state, events, k),
            events[k],
        ),
        state_before(state, events, 0) == state,
        state_before(state, events, events.len() as int) == after_events(state, events),
{
    assert(events.take(k + 1).drop_last() =~= events.take(k));
    assert(events.take(k + 1).last() == events[k]);
    assert(events.take(0) =~= Seq::<RegistryEvent>::empty());
    assert(events.take(events.len() as int) =~= events);
}

/// The counter of ids never falls from one event to a later one.
pub proof fn lemma_counter_never_falls(
    state: StateView,
    events: Seq<RegistryEvent>,
    k: int,
    l: int,
)
    requires
        state.wf(),
        0 <= k <= l <= events.len(),
    ensures
        state_before(state, events, k).wf(),
        state_before(state, events, l).wf(),
        state_before(state, events, k).next_connection_id <= state_before(
            state,
            events,
            l,
        ).next_connection_id,
    decreases l - k,
{
    lemma_registry_stays_well_formed(state, events.take(k));
    lemma_registry_stays_well_formed(state, events.take(l));
    if k < l {
        lemma_counter_never_falls(state, events, k, l - 1);
        lemma_state_before_next(state, events, l - 1);
        lemma_event(state_before(state, events, l - 1), events[l - 1], 0);
    }
}

/// Requests that are taken get rising ids, whatever happens between them:
/// proxies may come and go, outcomes may be reported, and requests may be
/// refused. So no two requests that are taken get the same id.
pub proof fn lemma_taken_ids_rise(state: StateView, events: Seq<RegistryEvent>, i: int, j: int)
    requires
        state.wf(),
        0 <= i < j < events.len(),
        request_taken(state, events, i),
        request_taken(state, events, j),
    ensures
        id_taken(state, events, i) < id_taken(state, events, j),
{
    lemma_counter_never_falls(state, events, i, i);
    lemma_state_before_next(state, events, i);
    lemma_event(state_before(state, events, i), events[i], 0);
    lemma_counter_never_falls(state, events, i + 1, j);
}

/// A request that is taken is held from then on by the proxy that stood
/// at its id modulo the number of proxies, and by that proxy only; it
/// waits, with its request, its handler and its deadline.
pub proof fn lemma_taken_request_is_held(state: StateView, events: Seq<RegistryEvent>, k: int)
    requires
        state.wf(),
        0 <= k < events.len(),
        request_taken(state, events, k),
    ensures
        state_before(state, events, k).is_connected(
            state_before(state, events, k).assigned_principal(),
        ),
        !state_before(state, events, k).holds(id_taken(state, events, k)),
        state_before(state, events, k + 1).is_assigned(
            state_before(state, events, k).assigned_principal(),
            id_taken(state, events, k),
        ),
        state_before(state, events, k + 1).connection(id_taken(state, events, k))
            == HttpConnectionView::new(
            id_taken(state, events, k),
            events[k]->RequestIssued_0.request,
            events[k]->RequestIssued_0.callback,
            events[k]->RequestIssued_0.timeout_ms,
        ),
        forall|principal: Seq<u8>| #[trigger]
            state_before(state, events, k + 1).is_assigned(principal, id_taken(state, events, k))
                ==> principal == state_before(state, events, k).assigned_principal(),
{
    let before = state_before(state, events, k);
    let after = state_before(state, events, k + 1);
    let issued = events[k]->RequestIssued_0;
    let id = id_taken(state, events, k);
    lemma_counter_never_falls(state, events, k, k + 1);
    lemma_state_before_next(state, events, k);
    before.lemma_assign_connection_facts(issued.request, issued.callback, issued.timeout_ms);
    assert forall|principal: Seq<u8>| #[trigger] after.is_assigned(principal, id) implies principal
        == before.assigned_principal() by {
        after.lemma_single_owner(principal, before.assigned_principal(), id);
    }
}

/// A caller is told that a connection is not found whenever no proxy
/// holds it. Of a connection that a proxy holds a caller is told so only
/// where the connection failed and that was the reason reported for it.
/// Likewise a caller is told that nothing has been received yet while the
/// connection waits, and else only where that was the reason reported for
/// its failure. A caller is given a response exactly when a proxy holds
/// the connection and it has one.
pub proof fn lemma_what_a_caller_is_told(state: StateView, id: HttpConnectionId)
    ensures
        !state.holds(id) ==> state.get_http_response(id) == Err::<
            HttpResponseView,
            HttpFailureReasonView,
        >(HttpFailureReasonView::ConnectionIdNotFound),
        state.get_http_response(id) == Err::<HttpResponseView, HttpFailureReasonView>(
            HttpFailureReasonView::ConnectionIdNotFound,
        ) <==> !state.holds(id) || state.connection(id).state == HttpConnectionStateView::Failed(
            HttpFailureReasonView::ConnectionIdNotFound,
        ),
        state.get_http_response(id) == Err::<HttpResponseView, HttpFailureReasonView>(
            HttpFailureReasonView::NotYetReceived,
        ) <==> state.holds(id) && (state.connection(id).state is WaitingForResponse
            || state.connection(id).state == HttpConnectionStateView::Failed(
            HttpFailureReasonView::NotYetReceived,
        )),
        state.get_http_response(id) is Ok <==> state.holds(id) && state.connection(id).state
            is Success,
        state.get_http_connection(id) is Some <==> state.holds(id),
{
    if state.holds(id) {
        state.connection(id).state.lemma_response();
    }
}

/// An id is never handed out twice: an id that has been allocated and is
/// not held, because its proxy has gone or because no proxy was there to
/// take it, is not held again, whatever happens.
pub proof fn lemma_id_is_never_reassigned(
    state: StateView,
    events: Seq<RegistryEvent>,
    id: HttpConnectionId,
)
    requires
        state.wf(),
        id <= state.next_connection_id,
        !state.holds(id),
    ensures
        !after_events(state, events).holds(id),
    decreases events.len(),
{
    if events.len() > 0 {
        let before = after_events(state, events.drop_last());
        lemma_id_is_never_reassigned(state, events.drop_last(), id);
        lemma_registry_stays_well_formed(state, events.drop_last());
        lemma_event(before, events.last(), id);
    }
}

/// A connection that has an outcome keeps it for as long as it is held:
/// whatever happens, a caller who asks for it is told what it was told
/// before, or that the connection is not found.
pub proof fn lemma_outcome_outlasts_events(
    state: StateView,
    events: Seq<RegistryEvent>,
    id: HttpConnectionId,
)
    requires
        state.wf(),
        state.holds(id),
        state.connection(id).state.is_terminal(),
    ensures
        after_events(state, events).holds(id) ==> after_events(state, events).connection(id)
            == state.connection(id),
        !after_events(state, events).holds(id) ==> after_events(state, events).get_http_response(
            id,
        ) == Err::<HttpResponseView, HttpFailureReasonView>(
            HttpFailureReasonView::ConnectionIdNotFound,
        ),
    decreases events.len(),
{
    if events.len() > 0 {
        let before = after_events(state, events.drop_last());
        let event = events.last();
        let after = after_event(before, event);
        lemma_outcome_outlasts_events(state, events.drop_last(), id);
        lemma_registry_stays_well_formed(state, events.drop_last());
        lemma_registry_stays_well_formed(state, events);
        lemma_event(before, event, id);
        if after.holds(id) {
            assert(before.holds(id));
            let owner = before.owner_of(id);
            assert(before.proxies[owner].connections.contains_key(id));
            before.lemma_owner_of(owner, id);
            let now = after.owner_of(id);
            assert(after.proxies[now].connections.contains_key(id));
            after.lemma_owner_of(now, id);
            match event {
                RegistryEvent::ProxyConnected(principal) => {
                    if before.is_connected(principal) {
                        let k = before.index_of(principal);
                        assert(now != k);
                        assert(after.proxies[now] == before.proxies[now]);
                    } else {
                        assert(now < before.proxies.len());
                        assert(after.proxies[now] == before.proxies[now]);
                    }
                },
                RegistryEvent::ProxyDisconnected(principal) => {
                    if before.is_connected(principal) {
                        let k = before.index_of(principal);
                        let now0 = if now < k {
                            now
                        } else {
                            now + 1
                        };
                        assert(after.proxies[now] == before.proxies[now0]);
                        before.lemma_owner_of(now0, id);
                    }
                },
                RegistryEvent::RequestIssued(issued) => {
                    if before.takes_request() {
                        assert(id != before.fresh_id());
                    }
                    assert(before.proxies[now].connections.contains_key(id));
                    before.lemma_owner_of(now, id);
                },
                RegistryEvent::OutcomeReported(principal, key, result) => {
                    if key == id {
                        lemma_outcome_is_final(before, principal, id, result);
                    } else {
                        assert(before.proxies[now].connections.contains_key(id));
                        before.lemma_owner_of(now, id);
                    }
                },
            }
        }
    }
}

/// The request of a connection is never altered: whatever happens, and
/// whatever is reported for the connection, a caller who asks for its
/// request is given the request that it was issued with, for as long as
/// the connection is held.
pub proof fn lemma_request_outlasts_events(
    state: StateView,
    events: Seq<RegistryEvent>,
    id: HttpConnectionId,
)
    requires
        state.wf(),
        state.holds(id),
    ensures
        after_events(state, events).holds(id) ==> after_events(state, events).get_http_connection(
            id,
        ) == state.get_http_connection(id),
        !after_events(state, events).holds(id) ==> after_events(state, events).get_http_connection(
            id,
        ) is None,
    decreases events.len(),
{
    if events.len() > 0 {
        let before = after_events(state, events.drop_last());
        let event = events.last();
        let after = after_event(before, event);
        lemma_request_outlasts_events(state, events.drop_last(), id);
        lemma_registry_stays_well_formed(state, events.drop_last());
        lemma_event(before, event, id);
        if after.holds(id) {
            if before.takes_request() {
                before.lemma_unallocated_id(before.fresh_id());
            }
            assert(before.holds(id));
            match event {
                RegistryEvent::ProxyConnected(principal) => {
                    before.lemma_add_client_facts(principal);
                },
                RegistryEvent::ProxyDisconnected(principal) => {
                    before.lemma_remove_client_facts(principal);
                },
                RegistryEvent::RequestIssued(issued) => {
                    before.lemma_assign_connection_facts(
                        issued.request,
                        issued.callback,
                        issued.timeout_ms,
                    );
                },
                RegistryEvent::OutcomeReported(principal, key, result) => {
                    before.lemma_update_connection_state_facts(principal, key, result);
                },
            }
            assert(after.connection(id).request == before.connection(id).request);
        }
    }
}

} // verus!
