//! The registry of connected proxies. It allocates connection ids, assigns
//! each new connection to one proxy, and lets only that proxy report the
//! connection's outcome.
//!
//! Proxies are kept in the order in which they connected. A proxy that
//! connects again while it is connected keeps its place and loses the
//! connections it had; a proxy that disconnects takes its connections
//! with it.

use vstd::prelude::*;
use crate::client_proxy::{ClientProxy, ClientProxyView};
use crate::connection::{
    HttpConnection,
    HttpConnectionEffects,
    HttpConnectionEffectsView,
    HttpConnectionView,
};
use crate::principal::Principal;
use crate::types::{
    callback_view,
    GetHttpResponseResult,
    HttpCallback,
    HttpConnectionId,
    HttpFailureReason,
    HttpFailureReasonView,
    HttpOverWsError,
    HttpOverWsErrorView,
    HttpRequest,
    HttpRequestTimeoutMs,
    HttpRequestView,
    HttpResponse,
    HttpResponseView,
    HttpResult,
    HttpResultView,
};

verus! {

pub struct StateView {
    /// The connected proxies, in the order in which they connected.
    pub proxies: Seq<ClientProxyView>,
    /// The id that was allocated last; 0 before the first.
    pub next_connection_id: HttpConnectionId,
}

impl StateView {
    pub open spec fn is_connected(self, principal: Seq<u8>) -> bool {
        exists|i: int|
            0 <= i < self.proxies.len() && (#[trigger] self.proxies[i]).principal == principal
    }

    /// Where a connected proxy stands.
    pub open spec fn index_of(self, principal: Seq<u8>) -> int {
        choose|i: int|
            0 <= i < self.proxies.len() && (#[trigger] self.proxies[i]).principal == principal
    }

    /// Whether some connected proxy holds a connection under `id`.
    pub open spec fn holds(self, id: HttpConnectionId) -> bool {
        exists|i: int|
            0 <= i < self.proxies.len() && #[trigger] self.proxies[i].connections.contains_key(id)
    }

    /// Where the proxy stands that holds the connection `id`.
    pub open spec fn owner_of(self, id: HttpConnectionId) -> int {
        choose|i: int|
            0 <= i < self.proxies.len() && #[trigger] self.proxies[i].connections.contains_key(id)
    }

    /// The connection held under `id`.
    pub open spec fn connection(self, id: HttpConnectionId) -> HttpConnectionView {
        self.proxies[self.owner_of(id)].connections[id]
    }

    /// Whether `principal` is connected and holds the connection `id`.
    pub open spec fn is_assigned(self, principal: Seq<u8>, id: HttpConnectionId) -> bool {
        self.is_connected(principal) && self.proxies[self.index_of(
            principal,
        )].connections.contains_key(id)
    }

    /// What holds of the registry at all times: no proxy stands in it
    /// twice; every connection is held under its own id, and that id has
    /// been allocated; no id is held by two proxies.
    pub open spec fn wf(self) -> bool {
        &&& forall|i: int, j: int|
            0 <= i < j < self.proxies.len() ==> (#[trigger] self.proxies[i]).principal != (
            #[trigger] self.proxies[j]).principal
        &&& forall|i: int, id: HttpConnectionId|
            0 <= i < self.proxies.len() && #[trigger] self.proxies[i].connections.contains_key(id)
                ==> 1 <= id <= self.next_connection_id && self.proxies[i].connections[id].id == id
        &&& forall|i: int, j: int, id: HttpConnectionId|
            0 <= i < self.proxies.len() && 0 <= j < self.proxies.len()
                && #[trigger] self.proxies[i].connections.contains_key(id)
                && #[trigger] self.proxies[j].connections.contains_key(id) ==> i == j
    }

    pub open spec fn new() -> StateView {
        StateView { proxies: Seq::empty(), next_connection_id: 0 }
    }

    pub open spec fn with_proxies(self, proxies: Seq<ClientProxyView>) -> StateView {
        StateView { proxies, next_connection_id: self.next_connection_id }
    }

    /// The registry after `principal` has connected.
    pub open spec fn add_client(self, principal: Seq<u8>) -> StateView {
        if self.is_connected(principal) {
            self.with_proxies(
                self.proxies.update(self.index_of(principal), ClientProxyView::new(principal)),
            )
        } else {
            self.with_proxies(self.proxies.push(ClientProxyView::new(principal)))
        }
    }

    /// The registry after `principal` has disconnected.
    pub open spec fn remove_client(self, principal: Seq<u8>) -> StateView {
        if self.is_connected(principal) {
            self.with_proxies(self.proxies.remove(self.index_of(principal)))
        } else {
            self
        }
    }

    /// Whether an id is left for another connection. Ids are allocated
    /// from a counter that cannot pass the largest integer it holds.
    pub open spec fn has_id_left(self) -> bool {
        self.next_connection_id < u64::MAX
    }

    /// Whether a request that is issued now is taken: an id is left for it,
    /// and a proxy is connected to take it.
    pub open spec fn takes_request(self) -> bool {
        self.has_id_left() && self.proxies.len() > 0
    }

    /// The id that the next connection gets.
    pub open spec fn fresh_id(self) -> HttpConnectionId {
        (self.next_connection_id + 1) as HttpConnectionId
    }

    /// Where the proxy stands that gets the next connection: the fresh id
    /// modulo the number of connected proxies.
    pub open spec fn assignee(self) -> int {
        self.fresh_id() as int % self.proxies.len() as int
    }

    /// The proxy that gets the next connection.
    pub open spec fn assigned_principal(self) -> Seq<u8> {
        self.proxies[self.assignee()].principal
    }

    /// The registry after a request has been issued. Without an id left
    /// nothing changes. Else the fresh id is spent, whether or not a proxy
    /// is connected to take the connection.
    pub open spec fn assign_connection(
        self,
        request: HttpRequestView,
        callback: Option<Seq<char>>,
        timeout_ms: Option<HttpRequestTimeoutMs>,
    ) -> StateView {
        let id = self.fresh_id();
        if !self.has_id_left() {
            self
        } else if self.proxies.len() == 0 {
            StateView { proxies: self.proxies, next_connection_id: id }
        } else {
            let i = self.assignee();
            let proxy = self.proxies[i];
            let connection = HttpConnectionView::new(id, request, callback, timeout_ms);
            StateView {
                proxies: self.proxies.update(
                    i,
                    proxy.with_connections(proxy.connections.insert(id, connection)),
                ),
                next_connection_id: id,
            }
        }
    }

    /// The registry after `principal` has reported an outcome for the
    /// connection `id`: unchanged unless `principal` holds that connection.
    pub open spec fn update_connection_state(
        self,
        principal: Seq<u8>,
        id: HttpConnectionId,
        result: HttpResultView,
    ) -> StateView {
        if self.is_assigned(principal, id) {
            let i = self.index_of(principal);
            let proxy = self.proxies[i];
            self.with_proxies(
                self.proxies.update(
                    i,
                    proxy.with_connections(
                        proxy.connections.insert(id, proxy.connections[id].after(result)),
                    ),
                ),
            )
        } else {
            self
        }
    }

    /// What the host has to do after `principal` has reported an outcome
    /// for the connection `id`.
    pub open spec fn update_effects(
        self,
        principal: Seq<u8>,
        id: HttpConnectionId,
        result: HttpResultView,
    ) -> HttpConnectionEffectsView {
        if self.is_assigned(principal, id) {
            self.proxies[self.index_of(principal)].connections[id].state.effects(result)
        } else {
            HttpConnectionEffectsView::none()
        }
    }

    pub open spec fn get_http_response(self, id: HttpConnectionId) -> Result<
        HttpResponseView,
        HttpFailureReasonView,
    > {
        if self.holds(id) {
            self.connection(id).state.response()
        } else {
            Err(HttpFailureReasonView::ConnectionIdNotFound)
        }
    }

    pub open spec fn get_http_connection(self, id: HttpConnectionId) -> Option<HttpRequestView> {
        if self.holds(id) {
            Some(self.connection(id).request)
        } else {
            None
        }
    }

    /// In a well-formed registry a proxy stands where `index_of` says.
    pub proof fn lemma_index_of(self, i: int)
        requires
            self.wf(),
            0 <= i < self.proxies.len(),
        ensures
            self.is_connected(self.proxies[i].principal),
            self.index_of(self.proxies[i].principal) == i,
    {
        let p = self.proxies[i].principal;
        let k = self.index_of(p);
        assert(0 <= k < self.proxies.len() && self.proxies[k].principal == p);
        if k < i {
            assert(self.proxies[k].principal != self.proxies[i].principal);
        } else if i < k {
            assert(self.proxies[i].principal != self.proxies[k].principal);
        }
    }

    /// In a well-formed registry a connection is held where `owner_of` says.
    pub proof fn lemma_owner_of(self, i: int, id: HttpConnectionId)
        requires
            self.wf(),
            0 <= i < self.proxies.len(),
            self.proxies[i].connections.contains_key(id),
        ensures
            self.holds(id),
            self.owner_of(id) == i,
            self.connection(id) == self.proxies[i].connections[id],
    {
        let k = self.owner_of(id);
        assert(0 <= k < self.proxies.len() && self.proxies[k].connections.contains_key(id));
    }

    /// Connecting a proxy keeps the registry well-formed.
    pub proof fn lemma_add_client_wf(self, principal: Seq<u8>)
        requires
            self.wf(),
        ensures
            self.add_client(principal).wf(),
    {
        let after = self.add_client(principal);
        let fresh = ClientProxyView::new(principal);
        if self.is_connected(principal) {
            let k = self.index_of(principal);
            assert forall|i: int, j: int| 0 <= i < j < after.proxies.len() implies (
            #[trigger] after.proxies[i]).principal != (#[trigger] after.proxies[j]).principal by {
                assert(after.proxies[i].principal == self.proxies[i].principal);
                assert(after.proxies[j].principal == self.proxies[j].principal);
            }
            assert forall|i: int, id: HttpConnectionId|
                0 <= i < after.proxies.len() && #[trigger] after.proxies[i].connections.contains_key(
                    id,
                ) implies 1 <= id <= after.next_connection_id
                && after.proxies[i].connections[id].id == id by {
                if i != k {
                    assert(self.proxies[i].connections.contains_key(id));
                }
            }
            assert forall|i: int, j: int, id: HttpConnectionId|
                0 <= i < after.proxies.len() && 0 <= j < after.proxies.len()
                    && #[trigger] after.proxies[i].connections.contains_key(id)
                    && #[trigger] after.proxies[j].connections.contains_key(id) implies i == j by {
                assert(self.proxies[i].connections.contains_key(id));
                assert(self.proxies[j].connections.contains_key(id));
            }
        } else {
            let n = self.proxies.len() as int;
            assert forall|i: int, j: int| 0 <= i < j < after.proxies.len() implies (
            #[trigger] after.proxies[i]).principal != (#[trigger] after.proxies[j]).principal by {
                assert(after.proxies[i] == self.proxies[i]);
                if j < n {
                    assert(after.proxies[j] == self.proxies[j]);
                }
            }
            assert forall|i: int, id: HttpConnectionId|
                0 <= i < after.proxies.len() && #[trigger] after.proxies[i].connections.contains_key(
                    id,
                ) implies 1 <= id <= after.next_connection_id
                && after.proxies[i].connections[id].id == id by {
                if i < n {
                    assert(self.proxies[i].connections.contains_key(id));
                }
            }
            assert forall|i: int, j: int, id: HttpConnectionId|
                0 <= i < after.proxies.len() && 0 <= j < after.proxies.len()
                    && #[trigger] after.proxies[i].connections.contains_key(id)
                    && #[trigger] after.proxies[j].connections.contains_key(id) implies i == j by {
                assert(self.proxies[i].connections.contains_key(id));
                assert(self.proxies[j].connections.contains_key(id));
            }
        }
    }

    /// Disconnecting a proxy keeps the registry well-formed.
    pub proof fn lemma_remove_client_wf(self, principal: Seq<u8>)
        requires
            self.wf(),
        ensures
            self.remove_client(principal).wf(),
    {
        let after = self.remove_client(principal);
        if self.is_connected(principal) {
            let k = self.index_of(principal);
            assert forall|i: int, j: int| 0 <= i < j < after.proxies.len() implies (
            #[trigger] after.proxies[i]).principal != (#[trigger] after.proxies[j]).principal by {
                let i0 = if i < k { i } else { i + 1 };
                let j0 = if j < k { j } else { j + 1 };
                assert(after.proxies[i] == self.proxies[i0]);
                assert(after.proxies[j] == self.proxies[j0]);
            }
            assert forall|i: int, id: HttpConnectionId|
                0 <= i < after.proxies.len() && #[trigger] after.proxies[i].connections.contains_key(
                    id,
                ) implies 1 <= id <= after.next_connection_id
                && after.proxies[i].connections[id].id == id by {
                let i0 = if i < k { i } else { i + 1 };
                assert(after.proxies[i] == self.proxies[i0]);
                assert(self.proxies[i0].connections.contains_key(id));
            }
            assert forall|i: int, j: int, id: HttpConnectionId|
                0 <= i < after.proxies.len() && 0 <= j < after.proxies.len()
                    && #[trigger] after.proxies[i].connections.contains_key(id)
                    && #[trigger] after.proxies[j].connections.contains_key(id) implies i == j by {
                let i0 = if i < k { i } else { i + 1 };
                let j0 = if j < k { j } else { j + 1 };
                assert(after.proxies[i] == self.proxies[i0]);
                assert(after.proxies[j] == self.proxies[j0]);
                assert(self.proxies[i0].connections.contains_key(id));
                assert(self.proxies[j0].connections.contains_key(id));
            }
        }
    }

    /// Issuing a request keeps the registry well-formed.
    pub proof fn lemma_assign_connection_wf(
        self,
        request: HttpRequestView,
        callback: Option<Seq<char>>,
        timeout_ms: Option<HttpRequestTimeoutMs>,
    )
        requires
            self.wf(),
        ensures
            self.assign_connection(request, callback, timeout_ms).wf(),
    {
        let after = self.assign_connection(request, callback, timeout_ms);
        let id = self.fresh_id();
        if !self.has_id_left() || self.proxies.len() == 0 {
        } else {
            let k = self.assignee();
            assert(0 <= k < self.proxies.len());
            assert forall|i: int, j: int| 0 <= i < j < after.proxies.len() implies (
            #[trigger] after.proxies[i]).principal != (#[trigger] after.proxies[j]).principal by {
                assert(after.proxies[i].principal == self.proxies[i].principal);
                assert(after.proxies[j].principal == self.proxies[j].principal);
            }
            assert forall|i: int, key: HttpConnectionId|
                0 <= i < after.proxies.len() && #[trigger] after.proxies[i].connections.contains_key(
                    key,
                ) implies 1 <= key <= after.next_connection_id
                && after.proxies[i].connections[key].id == key by {
                if i != k || key != id {
                    assert(self.proxies[i].connections.contains_key(key));
                }
            }
            assert forall|i: int, j: int, key: HttpConnectionId|
                0 <= i < after.proxies.len() && 0 <= j < after.proxies.len()
                    && #[trigger] after.proxies[i].connections.contains_key(key)
                    && #[trigger] after.proxies[j].connections.contains_key(key) implies i == j by {
                if key == id {
                    if i != k {
                        assert(self.proxies[i].connections.contains_key(key));
                    }
                    if j != k {
                        assert(self.proxies[j].connections.contains_key(key));
                    }
                } else {
                    assert(self.proxies[i].connections.contains_key(key));
                    assert(self.proxies[j].connections.contains_key(key));
                }
            }
        }
    }

    /// Reporting an outcome keeps the registry well-formed.
    pub proof fn lemma_update_connection_state_wf(
        self,
        principal: Seq<u8>,
        id: HttpConnectionId,
        result: HttpResultView,
    )
        requires
            self.wf(),
        ensures
            self.update_connection_state(principal, id, result).wf(),
    {
        let after = self.update_connection_state(principal, id, result);
        if self.is_assigned(principal, id) {
            let k = self.index_of(principal);
            assert forall|i: int, j: int| 0 <= i < j < after.proxies.len() implies (
            #[trigger] after.proxies[i]).principal != (#[trigger] after.proxies[j]).principal by {
                assert(after.proxies[i].principal == self.proxies[i].principal);
                assert(after.proxies[j].principal == self.proxies[j].principal);
            }
            assert forall|i: int, key: HttpConnectionId|
                0 <= i < after.proxies.len() && #[trigger] after.proxies[i].connections.contains_key(
                    key,
                ) implies 1 <= key <= after.next_connection_id
                && after.proxies[i].connections[key].id == key by {
                assert(self.proxies[i].connections.contains_key(key));
            }
            assert forall|i: int, j: int, key: HttpConnectionId|
                0 <= i < after.proxies.len() && 0 <= j < after.proxies.len()
                    && #[trigger] after.proxies[i].connections.contains_key(key)
                    && #[trigger] after.proxies[j].connections.contains_key(key) implies i == j by {
                assert(self.proxies[i].connections.contains_key(key));
                assert(self.proxies[j].connections.contains_key(key));
            }
        }
    }

    /// A proxy that holds a connection is connected, stands where
    /// `index_of` says, and holds the connection that `connection` gives.
    pub proof fn lemma_assigned(self, principal: Seq<u8>, id: HttpConnectionId)
        requires
            self.wf(),
            self.is_assigned(principal, id),
        ensures
            self.holds(id),
            self.owner_of(id) == self.index_of(principal),
            self.connection(id) == self.proxies[self.index_of(principal)].connections[id],
            1 <= id <= self.next_connection_id,
            self.connection(id).id == id,
    {
        let i = self.index_of(principal);
        self.lemma_owner_of(i, id);
    }

    /// A connection that is held is held by the proxy that stands where
    /// `owner_of` says.
    pub proof fn lemma_held(self, id: HttpConnectionId)
        requires
            self.wf(),
            self.holds(id),
        ensures
            0 <= self.owner_of(id) < self.proxies.len(),
            self.proxies[self.owner_of(id)].connections.contains_key(id),
            self.is_assigned(self.proxies[self.owner_of(id)].principal, id),
            1 <= id <= self.next_connection_id,
            self.connection(id).id == id,
    {
        let i = self.owner_of(id);
        self.lemma_index_of(i);
    }

    /// A connection is held by one proxy only.
    pub proof fn lemma_single_owner(self, first: Seq<u8>, second: Seq<u8>, id: HttpConnectionId)
        requires
            self.wf(),
            self.is_assigned(first, id),
            self.is_assigned(second, id),
        ensures
            first == second,
    {
        self.lemma_assigned(first, id);
        self.lemma_assigned(second, id);
    }

    /// An id that has not been allocated is not held.
    pub proof fn lemma_unallocated_id(self, id: HttpConnectionId)
        requires
            self.wf(),
            id == 0 || id > self.next_connection_id,
        ensures
            !self.holds(id),
    {
        if self.holds(id) {
            self.lemma_held(id);
        }
    }

    /// What issuing a request comes to, seen from outside: without an id
    /// left nothing changes; else the fresh id, which is above every id
    /// allocated before, is spent, and with a proxy connected the proxy at
    /// the fresh id modulo the number of proxies holds the new connection,
    /// which waits. Either way every other connection stays with its proxy
    /// as it is, and the same proxies are connected, in the same order.
    pub open spec fn issued(
        before: StateView,
        after: StateView,
        request: HttpRequestView,
        callback: Option<Seq<char>>,
        timeout_ms: Option<HttpRequestTimeoutMs>,
    ) -> bool {
        let id = before.fresh_id();
        &&& !before.has_id_left() ==> after == before
        &&& before.has_id_left() ==> after.next_connection_id == id && id
            > before.next_connection_id && !before.holds(id)
        &&& after.proxies.len() == before.proxies.len()
        &&& before.has_id_left() && before.proxies.len() == 0 ==> after
            == before.with_next_connection_id(id)
        &&& before.takes_request() ==> {
            &&& before.is_connected(before.assigned_principal())
            &&& after.is_connected(before.assigned_principal())
            &&& after.is_assigned(before.assigned_principal(), id)
            &&& after.holds(id)
            &&& after.connection(id) == HttpConnectionView::new(id, request, callback, timeout_ms)
            &&& forall|principal: Seq<u8>| #[trigger]
                after.is_assigned(principal, id) ==> principal == before.assigned_principal()
        }
        &&& forall|other: HttpConnectionId|
            #![trigger before.holds(other)]
            #![trigger after.connection(other)]
            before.holds(other) ==> after.holds(other) && after.connection(other)
                == before.connection(other)
        &&& forall|other: HttpConnectionId| #[trigger]
            after.holds(other) ==> before.holds(other) || (before.takes_request() && other == id)
        &&& forall|principal: Seq<u8>, other: HttpConnectionId|
            #![trigger before.is_assigned(principal, other)]
            #![trigger after.is_assigned(principal, other)]
            other != id ==> before.is_assigned(principal, other) == after.is_assigned(
                principal,
                other,
            )
        &&& forall|principal: Seq<u8>|
            #![trigger before.is_connected(principal)]
            #![trigger after.is_connected(principal)]
            before.is_connected(principal) == after.is_connected(principal)
        &&& forall|i: int|
            0 <= i < before.proxies.len() ==> (#[trigger] after.proxies[i]).principal
                == before.proxies[i].principal
    }

    /// The same registry with `id` as the last id allocated.
    pub open spec fn with_next_connection_id(self, id: HttpConnectionId) -> StateView {
        StateView { proxies: self.proxies, next_connection_id: id }
    }

    /// Issuing a request comes to what `issued` says.
    pub proof fn lemma_assign_connection_facts(
        self,
        request: HttpRequestView,
        callback: Option<Seq<char>>,
        timeout_ms: Option<HttpRequestTimeoutMs>,
    )
        requires
            self.wf(),
        ensures
            Self::issued(
                self,
                self.assign_connection(request, callback, timeout_ms),
                request,
                callback,
                timeout_ms,
            ),
    {
        let after = self.assign_connection(request, callback, timeout_ms);
        let id = self.fresh_id();
        if !self.has_id_left() {
        } else if self.proxies.len() == 0 {
            self.lemma_unallocated_id(id);
            assert forall|other: HttpConnectionId| #[trigger] after.holds(other) implies self.holds(
                other,
            ) by {
                let i = after.owner_of(other);
                assert(after.proxies[i].connections.contains_key(other));
            }
        } else {
            self.lemma_assign_connection_facts_connected(request, callback, timeout_ms);
        }
    }

    proof fn lemma_assign_connection_facts_connected(
        self,
        request: HttpRequestView,
        callback: Option<Seq<char>>,
        timeout_ms: Option<HttpRequestTimeoutMs>,
    )
        requires
            self.wf(),
            self.takes_request(),
        ensures
            Self::issued(
                self,
                self.assign_connection(request, callback, timeout_ms),
                request,
                callback,
                timeout_ms,
            ),
    {
        let after = self.assign_connection(request, callback, timeout_ms);
        let id = self.fresh_id();
        let k = self.assignee();
        assert(0 <= k < self.proxies.len());
        self.lemma_assign_connection_wf(request, callback, timeout_ms);
        self.lemma_unallocated_id(id);
        self.lemma_index_of(k);
        after.lemma_index_of(k);
        assert(after.proxies[k].connections.contains_key(id));
        after.lemma_owner_of(k, id);
        assert forall|key: HttpConnectionId| #[trigger] self.holds(key) implies after.holds(key)
            && after.connection(key) == self.connection(key) by {
            self.lemma_held(key);
            let i = self.owner_of(key);
            assert(after.proxies[i].connections.contains_key(key));
            after.lemma_owner_of(i, key);
        }
        assert forall|other: HttpConnectionId| #[trigger] after.holds(other) implies self.holds(
            other,
        ) || other == id by {
            after.lemma_held(other);
            let i = after.owner_of(other);
            if other != id {
                assert(self.proxies[i].connections.contains_key(other));
            }
        }
        assert forall|principal: Seq<u8>| #[trigger]
            self.is_connected(principal) == after.is_connected(principal) by {
            if self.is_connected(principal) {
                let i = self.index_of(principal);
                assert(after.proxies[i].principal == principal);
            }
            if after.is_connected(principal) {
                let i = after.index_of(principal);
                assert(self.proxies[i].principal == principal);
            }
        }
        assert forall|principal: Seq<u8>, key: HttpConnectionId| #[trigger]
            self.is_assigned(principal, key) implies after.is_assigned(principal, key) by {
            let i = self.index_of(principal);
            assert(after.proxies[i].principal == principal);
            after.lemma_index_of(i);
            assert(after.proxies[i].connections.contains_key(key));
        }
    }

    /// What reporting an outcome comes to, seen from outside: if the
    /// reporting proxy holds the connection, the connection takes the
    /// outcome, unless it has one already; if not, nothing changes. Either
    /// way every other connection stays as it is, every connection stays
    /// with its proxy, and the same proxies are connected.
    pub open spec fn reported(
        before: StateView,
        after: StateView,
        principal: Seq<u8>,
        id: HttpConnectionId,
        result: HttpResultView,
    ) -> bool {
        &&& after.next_connection_id == before.next_connection_id
        &&& after.proxies.len() == before.proxies.len()
        &&& before.is_assigned(principal, id) ==> after.holds(id) && after.connection(id)
            == before.connection(id).after(result)
        &&& !before.is_assigned(principal, id) ==> after == before
        &&& forall|other: HttpConnectionId|
            #![trigger before.holds(other)]
            #![trigger after.holds(other)]
            before.holds(other) == after.holds(other)
        &&& forall|other: HttpConnectionId|
            #![trigger before.connection(other)]
            #![trigger after.connection(other)]
            before.holds(other) && other != id ==> after.connection(other) == before.connection(
                other,
            )
        &&& forall|q: Seq<u8>, other: HttpConnectionId|
            #![trigger before.is_assigned(q, other)]
            #![trigger after.is_assigned(q, other)]
            before.is_assigned(q, other) == after.is_assigned(q, other)
        &&& forall|q: Seq<u8>|
            #![trigger before.is_connected(q)]
            #![trigger after.is_connected(q)]
            before.is_connected(q) == after.is_connected(q)
        &&& forall|i: int|
            0 <= i < before.proxies.len() ==> (#[trigger] after.proxies[i]).principal
                == before.proxies[i].principal
    }

    /// Reporting an outcome comes to what `reported` says.
    pub proof fn lemma_update_connection_state_facts(
        self,
        principal: Seq<u8>,
        id: HttpConnectionId,
        result: HttpResultView,
    )
        requires
            self.wf(),
        ensures
            Self::reported(
                self,
                self.update_connection_state(principal, id, result),
                principal,
                id,
                result,
            ),
    {
        let after = self.update_connection_state(principal, id, result);
        self.lemma_update_connection_state_wf(principal, id, result);
        if self.is_assigned(principal, id) {
            let k = self.index_of(principal);
            self.lemma_assigned(principal, id);
            assert(after.proxies[k].connections.contains_key(id));
            after.lemma_owner_of(k, id);
            assert forall|other: HttpConnectionId| #[trigger] self.holds(other) implies after.holds(
                other,
            ) && (other != id ==> after.connection(other) == self.connection(other)) by {
                self.lemma_held(other);
                let i = self.owner_of(other);
                assert(after.proxies[i].connections.contains_key(other));
                after.lemma_owner_of(i, other);
            }
            assert forall|other: HttpConnectionId| #[trigger] after.holds(other) implies self.holds(
                other,
            ) by {
                after.lemma_held(other);
                let i = after.owner_of(other);
                assert(self.proxies[i].connections.contains_key(other));
            }
            assert forall|q: Seq<u8>| #[trigger] self.is_connected(q) == after.is_connected(q) by {
                if self.is_connected(q) {
                    let i = self.index_of(q);
                    assert(after.proxies[i].principal == q);
                }
                if after.is_connected(q) {
                    let i = after.index_of(q);
                    assert(self.proxies[i].principal == q);
                }
            }
            assert forall|q: Seq<u8>, other: HttpConnectionId| #[trigger]
                self.is_assigned(q, other) == after.is_assigned(q, other) by {
                if self.is_assigned(q, other) {
                    let i = self.index_of(q);
                    assert(after.proxies[i].principal == q);
                    after.lemma_index_of(i);
                    assert(after.proxies[i].connections.contains_key(other));
                }
                if after.is_assigned(q, other) {
                    let i = after.index_of(q);
                    assert(self.proxies[i].principal == q);
                    self.lemma_index_of(i);
                    assert(self.proxies[i].connections.contains_key(other));
                }
            }
        }
    }

    /// What connecting a proxy comes to, seen from outside: the proxy is
    /// connected and holds nothing; it stands where it stood, or last if
    /// it was not connected; every other proxy stays connected with what
    /// it holds.
    pub open spec fn joined(before: StateView, after: StateView, principal: Seq<u8>) -> bool {
        &&& after.next_connection_id == before.next_connection_id
        &&& after.is_connected(principal)
        &&& !before.is_connected(principal) ==> after.proxies == before.proxies.push(
            ClientProxyView::new(principal),
        )
        &&& before.is_connected(principal) ==> after.proxies.len() == before.proxies.len()
        &&& forall|q: Seq<u8>|
            #![trigger after.is_connected(q)]
            #![trigger before.is_connected(q)]
            after.is_connected(q) == (before.is_connected(q) || q == principal)
        &&& forall|q: Seq<u8>, id: HttpConnectionId|
            #![trigger after.is_assigned(q, id)]
            #![trigger before.is_assigned(q, id)]
            after.is_assigned(q, id) == (before.is_assigned(q, id) && q != principal)
        &&& forall|id: HttpConnectionId|
            #![trigger after.holds(id)]
            #![trigger before.holds(id)]
            after.holds(id) == (before.holds(id) && !before.is_assigned(principal, id))
        &&& forall|id: HttpConnectionId|
            #![trigger after.connection(id)]
            #![trigger before.connection(id)]
            after.holds(id) ==> after.connection(id) == before.connection(id)
    }

    /// Connecting a proxy comes to what `joined` says.
    pub proof fn lemma_add_client_facts(self, principal: Seq<u8>)
        requires
            self.wf(),
        ensures
            Self::joined(self, self.add_client(principal), principal),
    {
        let after = self.add_client(principal);
        let n = self.proxies.len() as int;
        self.lemma_add_client_wf(principal);
        if self.is_connected(principal) {
            let k = self.index_of(principal);
            assert(after.proxies[k].principal == principal);
            after.lemma_index_of(k);
            assert forall|q: Seq<u8>| #[trigger] after.is_connected(q) == (self.is_connected(q) || q
                == principal) by {
                if self.is_connected(q) {
                    let i = self.index_of(q);
                    assert(after.proxies[i].principal == q);
                }
                if after.is_connected(q) {
                    let i = after.index_of(q);
                    assert(self.proxies[i].principal == q);
                }
            }
            assert forall|q: Seq<u8>, id: HttpConnectionId| #[trigger]
                after.is_assigned(q, id) == (self.is_assigned(q, id) && q != principal) by {
                if self.is_assigned(q, id) && q != principal {
                    let i = self.index_of(q);
                    assert(after.proxies[i] == self.proxies[i]);
                    after.lemma_index_of(i);
                }
                if after.is_assigned(q, id) {
                    let i = after.index_of(q);
                    assert(i != k);
                    assert(self.proxies[i] == after.proxies[i]);
                    self.lemma_index_of(i);
                }
            }
            assert forall|id: HttpConnectionId| #[trigger]
                after.holds(id) == (self.holds(id) && !self.is_assigned(principal, id)) by {
                if self.holds(id) && !self.is_assigned(principal, id) {
                    self.lemma_held(id);
                    let i = self.owner_of(id);
                    assert(after.proxies[i].connections.contains_key(id));
                }
                if after.holds(id) {
                    after.lemma_held(id);
                    let i = after.owner_of(id);
                    assert(self.proxies[i].connections.contains_key(id));
                    self.lemma_owner_of(i, id);
                }
            }
            assert forall|id: HttpConnectionId| #[trigger] after.holds(id) implies after.connection(
                id,
            ) == self.connection(id) by {
                after.lemma_held(id);
                let i = after.owner_of(id);
                assert(self.proxies[i].connections.contains_key(id));
                self.lemma_owner_of(i, id);
            }
        } else {
            assert(after.proxies[n].principal == principal);
            after.lemma_index_of(n);
            assert forall|q: Seq<u8>| #[trigger] after.is_connected(q) == (self.is_connected(q) || q
                == principal) by {
                if self.is_connected(q) {
                    let i = self.index_of(q);
                    assert(after.proxies[i].principal == q);
                }
                if after.is_connected(q) && q != principal {
                    let i = after.index_of(q);
                    assert(i < n);
                    assert(self.proxies[i].principal == q);
                }
            }
            assert forall|q: Seq<u8>, id: HttpConnectionId| #[trigger]
                after.is_assigned(q, id) == (self.is_assigned(q, id) && q != principal) by {
                if self.is_assigned(q, id) {
                    let i = self.index_of(q);
                    assert(after.proxies[i] == self.proxies[i]);
                    after.lemma_index_of(i);
                }
                if after.is_assigned(q, id) {
                    let i = after.index_of(q);
                    if i < n {
                        assert(self.proxies[i] == after.proxies[i]);
                        self.lemma_index_of(i);
                    }
                }
            }
            assert forall|id: HttpConnectionId| #[trigger]
                after.holds(id) == (self.holds(id) && !self.is_assigned(principal, id)) by {
                if self.holds(id) {
                    self.lemma_held(id);
                    let i = self.owner_of(id);
                    assert(after.proxies[i].connections.contains_key(id));
                }
                if after.holds(id) {
                    after.lemma_held(id);
                    let i = after.owner_of(id);
                    assert(i < n);
                    assert(self.proxies[i].connections.contains_key(id));
                }
            }
            assert forall|id: HttpConnectionId| #[trigger] after.holds(id) implies after.connection(
                id,
            ) == self.connection(id) by {
                after.lemma_held(id);
                let i = after.owner_of(id);
                assert(self.proxies[i].connections.contains_key(id));
                self.lemma_owner_of(i, id);
            }
        }
    }

    /// What disconnecting a proxy comes to, seen from outside: the proxy is
    /// not connected, and what it held is held no more; every other proxy
    /// stays connected with what it holds.
    pub open spec fn left(before: StateView, after: StateView, principal: Seq<u8>) -> bool {
        &&& after.next_connection_id == before.next_connection_id
        &&& !after.is_connected(principal)
        &&& !before.is_connected(principal) ==> after == before
        &&& before.is_connected(principal) ==> after.proxies.len() == before.proxies.len() - 1
        &&& forall|q: Seq<u8>|
            #![trigger after.is_connected(q)]
            #![trigger before.is_connected(q)]
            after.is_connected(q) == (before.is_connected(q) && q != principal)
        &&& forall|q: Seq<u8>, id: HttpConnectionId|
            #![trigger after.is_assigned(q, id)]
            #![trigger before.is_assigned(q, id)]
            after.is_assigned(q, id) == (before.is_assigned(q, id) && q != principal)
        &&& forall|id: HttpConnectionId|
            #![trigger after.holds(id)]
            #![trigger before.holds(id)]
            after.holds(id) == (before.holds(id) && !before.is_assigned(principal, id))
        &&& forall|id: HttpConnectionId|
            #![trigger after.connection(id)]
            #![trigger before.connection(id)]
            after.holds(id) ==> after.connection(id) == before.connection(id)
    }

    /// Disconnecting a proxy comes to what `left` says.
    pub proof fn lemma_remove_client_facts(self, principal: Seq<u8>)
        requires
            self.wf(),
        ensures
            Self::left(self, self.remove_client(principal), principal),
    {
        let after = self.remove_client(principal);
        self.lemma_remove_client_wf(principal);
        if self.is_connected(principal) {
            let k = self.index_of(principal);
            assert forall|q: Seq<u8>| #[trigger] after.is_connected(q) == (self.is_connected(q) && q
                != principal) by {
                if self.is_connected(q) && q != principal {
                    let i = self.index_of(q);
                    let j = if i < k {
                        i
                    } else {
                        i - 1
                    };
                    assert(after.proxies[j] == self.proxies[i]);
                }
                if after.is_connected(q) {
                    let j = after.index_of(q);
                    let i = if j < k {
                        j
                    } else {
                        j + 1
                    };
                    assert(after.proxies[j] == self.proxies[i]);
                    self.lemma_index_of(i);
                }
            }
            assert forall|q: Seq<u8>, id: HttpConnectionId| #[trigger]
                after.is_assigned(q, id) == (self.is_assigned(q, id) && q != principal) by {
                if self.is_assigned(q, id) && q != principal {
                    let i = self.index_of(q);
                    let j = if i < k {
                        i
                    } else {
                        i - 1
                    };
                    assert(after.proxies[j] == self.proxies[i]);
                    after.lemma_index_of(j);
                }
                if after.is_assigned(q, id) {
                    let j = after.index_of(q);
                    let i = if j < k {
                        j
                    } else {
                        j + 1
                    };
                    assert(after.proxies[j] == self.proxies[i]);
                    self.lemma_index_of(i);
                }
            }
            assert forall|id: HttpConnectionId| #[trigger]
                after.holds(id) == (self.holds(id) && !self.is_assigned(principal, id)) by {
                if self.holds(id) && !self.is_assigned(principal, id) {
                    self.lemma_held(id);
                    let i = self.owner_of(id);
                    let j = if i < k {
                        i
                    } else {
                        i - 1
                    };
                    assert(after.proxies[j] == self.proxies[i]);
                    assert(after.proxies[j].connections.contains_key(id));
                }
                if after.holds(id) {
                    after.lemma_held(id);
                    let j = after.owner_of(id);
                    let i = if j < k {
                        j
                    } else {
                        j + 1
                    };
                    assert(after.proxies[j] == self.proxies[i]);
                    assert(self.proxies[i].connections.contains_key(id));
                    self.lemma_owner_of(i, id);
                }
            }
            assert forall|id: HttpConnectionId| #[trigger] after.holds(id) implies after.connection(
                id,
            ) == self.connection(id) by {
                after.lemma_held(id);
                let j = after.owner_of(id);
                let i = if j < k {
                    j
                } else {
                    j + 1
                };
                assert(after.proxies[j] == self.proxies[i]);
                assert(self.proxies[i].connections.contains_key(id));
                self.lemma_owner_of(i, id);
            }
        }
    }
}

/// What `remove_client` says of a proxy that is not connected.
pub open spec fn client_not_connected_text() -> Seq<char> {
    "client not connected"@
}

pub struct State {
    connected_clients: Vec<ClientProxy>,
    next_connection_id: HttpConnectionId,
}

impl View for State {
    type V = StateView;

    closed spec fn view(&self) -> StateView {
        StateView {
            proxies: Seq::new(
                self.connected_clients@.len(),
                |i: int| self.connected_clients@[i]@,
            ),
            next_connection_id: self.next_connection_id,
        }
    }
}

impl State {
    /// The registry is well-formed: its view is.
    pub open spec fn wf(&self) -> bool {
        self@.wf()
    }

    pub fn new() -> (state: Self)
        ensures
            state.wf(),
            state@ == StateView::new(),
    {
        let state = State { connected_clients: Vec::new(), next_connection_id: 0 };
        assert(state@.proxies =~= Seq::empty());
        state
    }

    /// A registry without proxies whose counter of ids stands at
    /// `last_connection_id`: the ids up to it count as allocated and are
    /// not handed out again.
    pub fn resuming_after(last_connection_id: HttpConnectionId) -> (state: Self)
        ensures
            state.wf(),
            state@ == StateView::new().with_next_connection_id(last_connection_id),
    {
        let state = State {
            connected_clients: Vec::new(),
            next_connection_id: last_connection_id,
        };
        assert(state@.proxies =~= Seq::empty());
        state
    }

    /// The id that was allocated last; 0 before the first.
    pub fn last_connection_id(&self) -> (id: HttpConnectionId)
        ensures
            id == self@.next_connection_id,
    {
        self.next_connection_id
    }

    /// Where `principal` stands among the connected proxies.
    fn find_client(&self, principal: &Principal) -> (found: Option<usize>)
        requires
            self.wf(),
        ensures
            match found {
                Some(i) => i < self.connected_clients.len() && self@.is_connected(principal@)
                    && self@.index_of(principal@) == i,
                None => !self@.is_connected(principal@),
            },
    {
        let mut i: usize = 0;
        while i < self.connected_clients.len()
            invariant
                i <= self.connected_clients.len(),
                self.wf(),
                forall|j: int| 0 <= j < i ==> self@.proxies[j].principal != principal@,
            decreases self.connected_clients.len() - i,
        {
            if self.connected_clients[i].principal().is(principal) {
                proof {
                    assert(self@.proxies[i as int].principal == principal@);
                    self@.lemma_index_of(i as int);
                }
                return Some(i);
            }
            i += 1;
        }
        None
    }

    /// Where the proxy stands that holds the connection `connection_id`.
    fn find_owner(&self, connection_id: HttpConnectionId) -> (found: Option<usize>)
        requires
            self.wf(),
        ensures
            match found {
                Some(i) => i < self.connected_clients.len() && self@.holds(connection_id)
                    && self@.owner_of(connection_id) == i,
                None => !self@.holds(connection_id),
            },
    {
        let mut i: usize = 0;
        while i < self.connected_clients.len()
            invariant
                i <= self.connected_clients.len(),
                self.wf(),
                forall|j: int|
                    0 <= j < i ==> !(#[trigger] self@.proxies[j]).connections.contains_key(
                        connection_id,
                    ),
            decreases self.connected_clients.len() - i,
        {
            if self.connected_clients[i].has_connection(connection_id) {
                proof {
                    assert(self@.proxies[i as int].connections.contains_key(connection_id));
                    self@.lemma_owner_of(i as int, connection_id);
                }
                return Some(i);
            }
            i += 1;
        }
        None
    }

    /// The number of connected proxies.
    pub fn connected_clients_count(&self) -> (count: usize)
        ensures
            count == self@.proxies.len(),
    {
        self.connected_clients.len()
    }

    /// Whether an id is left for another connection.
    pub fn can_assign(&self) -> (left: bool)
        ensures
            left == self@.has_id_left(),
    {
        self.next_connection_id < u64::MAX
    }

    /// Takes `client_principal` into the registry, with no connections. If
    /// it is connected already, it keeps its place and the connections it
    /// held are dropped.
    pub fn add_client(&mut self, client_principal: Principal)
        requires
            old(self).wf(),
        ensures
            final(self).wf(),
            final(self)@ == old(self)@.add_client(client_principal@),
            StateView::joined(old(self)@, final(self)@, client_principal@),
    {
        proof {
            self@.lemma_add_client_wf(client_principal@);
            self@.lemma_add_client_facts(client_principal@);
        }
        let ghost before = self@;
        match self.find_client(&client_principal) {
            Some(i) => {
                self.connected_clients[i] = ClientProxy::new(client_principal);
                assert(self@.proxies =~= before.proxies.update(
                    i as int,
                    ClientProxyView::new(client_principal@),
                ));
            },
            None => {
                self.connected_clients.push(ClientProxy::new(client_principal));
                assert(self@.proxies =~= before.proxies.push(
                    ClientProxyView::new(client_principal@),
                ));
            },
        }
    }

    /// Takes `client_principal` out of the registry, with all the
    /// connections it holds.
    pub fn remove_client(&mut self, client_principal: &Principal) -> (removed: Result<
        (),
        HttpFailureReason,
    >)
        requires
            old(self).wf(),
        ensures
            final(self).wf(),
            final(self)@ == old(self)@.remove_client(client_principal@),
            old(self)@.is_connected(client_principal@) ==> removed is Ok,
            !old(self)@.is_connected(client_principal@) ==> removed is Err && removed->Err_0@
                == HttpFailureReasonView::ProxyError(client_not_connected_text()),
            StateView::left(old(self)@, final(self)@, client_principal@),
    {
        proof {
            self@.lemma_remove_client_wf(client_principal@);
            self@.lemma_remove_client_facts(client_principal@);
        }
        let ghost before = self@;
        match self.find_client(client_principal) {
            Some(i) => {
                let _ = self.connected_clients.remove(i);
                assert(self@.proxies =~= before.proxies.remove(i as int));
                Ok(())
            },
            None => Err(HttpFailureReason::ProxyError("client not connected".to_owned())),
        }
    }

    /// Allocates the next connection id and, if a proxy is connected,
    /// assigns a new waiting connection for `request` to the proxy that
    /// stands at that id modulo the number of connected proxies. Once the
    /// counter of ids has reached its end, no request is taken any more
    /// and nothing changes.
    pub fn assign_connection(
        &mut self,
        request: HttpRequest,
        callback: Option<HttpCallback>,
        timeout_ms: Option<HttpRequestTimeoutMs>,
    ) -> (assigned: Result<(Principal, HttpConnectionId), HttpOverWsError>)
        requires
            old(self).wf(),
        ensures
            final(self).wf(),
            final(self)@ == old(self)@.assign_connection(
                request@,
                callback_view(callback),
                timeout_ms,
            ),
            !old(self)@.has_id_left() ==> assigned is Err && assigned->Err_0@
                == HttpOverWsErrorView::NoConnectionIdLeft,
            old(self)@.has_id_left() && old(self)@.proxies.len() == 0 ==> assigned is Err
                && assigned->Err_0@ == HttpOverWsErrorView::NoProxiesConnected,
            old(self)@.takes_request() ==> assigned is Ok,
            assigned matches Ok(pair) ==> pair.0@ == old(self)@.assigned_principal(),
            assigned matches Ok(pair) ==> pair.1 == old(self)@.fresh_id(),
            assigned matches Ok(pair) ==> pair.1 > old(self)@.next_connection_id,
            assigned matches Ok(pair) ==> pair.1 == final(self)@.next_connection_id,
            final(self)@.next_connection_id >= old(self)@.next_connection_id,
            final(self)@.proxies.len() == old(self)@.proxies.len(),
            StateView::issued(
                old(self)@,
                final(self)@,
                request@,
                callback_view(callback),
                timeout_ms,
            ),
    {
        let ghost before = self@;
        let ghost handler = callback_view(callback);
        proof {
            before.lemma_assign_connection_wf(request@, handler, timeout_ms);
            before.lemma_assign_connection_facts(request@, handler, timeout_ms);
        }
        let connection_id = match self.next_connection_id() {
            Some(connection_id) => connection_id,
            None => {
                return Err(HttpOverWsError::NoConnectionIdLeft);
            },
        };
        assert(self@.proxies =~= before.proxies);
        let chosen = match self.get_client_for_connection(connection_id) {
            Some(chosen) => chosen,
            None => {
                return Err(HttpOverWsError::NoProxiesConnected);
            },
        };
        assert(chosen as int == before.assignee());
        let client_principal = self.connected_clients[chosen].principal().clone();
        let connection = HttpConnection::new(connection_id, request, callback, timeout_ms);
        self.connected_clients[chosen].assign_connection(connection_id, connection);
        proof {
            let proxy = before.proxies[chosen as int];
            assert(self@.proxies =~= before.proxies.update(
                chosen as int,
                proxy.with_connections(
                    proxy.connections.insert(
                        connection_id,
                        HttpConnectionView::new(connection_id, request@, handler, timeout_ms),
                    ),
                ),
            ));
        }
        Ok((client_principal, connection_id))
    }

    /// Allocates the next connection id, if one is left.
    fn next_connection_id(&mut self) -> (connection_id: Option<HttpConnectionId>)
        ensures
            old(self).next_connection_id < u64::MAX ==> connection_id == Some(
                (old(self).next_connection_id + 1) as u64,
            ) && final(self).next_connection_id == old(self).next_connection_id + 1,
            old(self).next_connection_id == u64::MAX ==> connection_id is None && *final(self)
                == *old(self),
            final(self).connected_clients == old(self).connected_clients,
    {
        if self.next_connection_id == u64::MAX {
            return None;
        }
        self.next_connection_id += 1;
        Some(self.next_connection_id)
    }

    /// Where the proxy stands that takes the connection `connection_id`:
    /// at that id modulo the number of connected proxies. No proxy takes
    /// it if none is connected.
    fn get_client_for_connection(&self, connection_id: HttpConnectionId) -> (chosen: Option<usize>)
        ensures
            self.connected_clients@.len() == 0 ==> chosen is None,
            self.connected_clients@.len() > 0 ==> chosen is Some,
            chosen matches Some(i) ==> i as int == connection_id as int
                % self.connected_clients@.len() as int,
    {
        let connected_clients_count = self.connected_clients.len();
        if connected_clients_count == 0 {
            return None;
        }
        // the remainder lies below the number of connected proxies, so a
        // proxy stands there
        Some((connection_id % (connected_clients_count as u64)) as usize)
    }

    /// The connected proxies, in the order in which they connected.
    pub fn get_connected_client_principals(&self) -> (principals: Vec<Principal>)
        ensures
            principals@.len() == self@.proxies.len(),
            forall|i: int|
                0 <= i < principals@.len() ==> (#[trigger] principals@[i])@
                    == self@.proxies[i].principal,
    {
        let mut principals: Vec<Principal> = Vec::new();
        let mut i: usize = 0;
        while i < self.connected_clients.len()
            invariant
                i <= self.connected_clients.len(),
                principals@.len() == i,
                forall|j: int|
                    0 <= j < i ==> (#[trigger] principals@[j])@ == self@.proxies[j].principal,
            decreases self.connected_clients.len() - i,
        {
            principals.push(self.connected_clients[i].principal().clone());
            i += 1;
        }
        principals
    }

    /// Reports a result for the connection `connection_id` on behalf of
    /// `client_principal`. The connection is looked for among the
    /// connections of that proxy alone: if the proxy is not connected, or
    /// the connection is not held there, whoever else may hold it, nothing
    /// changes and the host has nothing to do.
    pub fn update_connection_state(
        &mut self,
        client_principal: &Principal,
        connection_id: HttpConnectionId,
        http_result: HttpResult,
    ) -> (effects: HttpConnectionEffects)
        requires
            old(self).wf(),
        ensures
            final(self).wf(),
            final(self)@ == old(self)@.update_connection_state(
                client_principal@,
                connection_id,
                http_result@,
            ),
            effects@ == old(self)@.update_effects(client_principal@, connection_id, http_result@),
            StateView::reported(
                old(self)@,
                final(self)@,
                client_principal@,
                connection_id,
                http_result@,
            ),
    {
        let ghost before = self@;
        proof {
            before.lemma_update_connection_state_wf(client_principal@, connection_id, http_result@);
            before.lemma_update_connection_state_facts(
                client_principal@,
                connection_id,
                http_result@,
            );
        }
        let i = match self.find_client(client_principal) {
            Some(i) => i,
            None => {
                return HttpConnectionEffects { clear_timer: false, callback: None };
            },
        };
        let effects = self.connected_clients[i].update_connection_state(connection_id, http_result);
        proof {
            let proxy = before.proxies[i as int];
            assert(self@.proxies =~= before.proxies.update(
                i as int,
                proxy.reported(connection_id, http_result@),
            ));
            if !proxy.connections.contains_key(connection_id) {
                assert(self@.proxies =~= before.proxies);
            }
        }
        effects
    }

    /// Records `response` as the outcome of the connection `connection_id`
    /// held by `client_principal`. If the proxy is not connected, or does
    /// not hold the connection, nothing changes and the host has nothing
    /// to do.
    pub fn handle_http_response(
        &mut self,
        client_principal: &Principal,
        connection_id: HttpConnectionId,
        response: HttpResponse,
    ) -> (effects: HttpConnectionEffects)
        requires
            old(self).wf(),
        ensures
            final(self).wf(),
            final(self)@ == old(self)@.update_connection_state(
                client_principal@,
                connection_id,
                HttpResultView::Success(response@),
            ),
            effects@ == old(self)@.update_effects(
                client_principal@,
                connection_id,
                HttpResultView::Success(response@),
            ),
            StateView::reported(
                old(self)@,
                final(self)@,
                client_principal@,
                connection_id,
                HttpResultView::Success(response@),
            ),
    {
        self.update_connection_state(client_principal, connection_id, HttpResult::Success(response))
    }

    /// Records `reason` as the outcome of the connection `connection_id`
    /// held by `client_principal`, if it is held there and still waits.
    pub fn report_connection_failure(
        &mut self,
        client_principal: &Principal,
        connection_id: HttpConnectionId,
        reason: HttpFailureReason,
    )
        requires
            old(self).wf(),
        ensures
            final(self).wf(),
            final(self)@ == old(self)@.update_connection_state(
                client_principal@,
                connection_id,
                HttpResultView::Failure(reason@),
            ),
            StateView::reported(
                old(self)@,
                final(self)@,
                client_principal@,
                connection_id,
                HttpResultView::Failure(reason@),
            ),
    {
        let _ = self.update_connection_state(
            client_principal,
            connection_id,
            HttpResult::Failure(reason),
        );
    }

    /// The request of the connection `connection_id`, whoever holds it.
    pub fn get_http_connection(&self, connection_id: HttpConnectionId) -> (request: Option<
        HttpRequest,
    >)
        requires
            self.wf(),
        ensures
            match self@.get_http_connection(connection_id) {
                Some(r) => request is Some && request->0@ == r,
                None => request is None,
            },
            connection_id == 0 || connection_id > self@.next_connection_id ==> request is None,
    {
        proof {
            if connection_id == 0 || connection_id > self@.next_connection_id {
                self@.lemma_unallocated_id(connection_id);
            }
        }
        match self.find_owner(connection_id) {
            Some(i) => {
                match self.connected_clients[i].get_connection(connection_id) {
                    Ok(connection) => Some(connection.get_request()),
                    Err(_) => None,
                }
            },
            None => None,
        }
    }

    /// The response of the connection `connection_id`, whoever holds it, or
    /// the reason why there is none.
    pub fn get_http_response(&self, connection_id: HttpConnectionId) -> (response:
        GetHttpResponseResult)
        requires
            self.wf(),
        ensures
            match self@.get_http_response(connection_id) {
                Ok(r) => response is Ok && response->Ok_0@ == r,
                Err(e) => response is Err && response->Err_0@ == e,
            },
            connection_id == 0 || connection_id > self@.next_connection_id ==> response is Err
                && response->Err_0@ == HttpFailureReasonView::ConnectionIdNotFound,
    {
        proof {
            if connection_id == 0 || connection_id > self@.next_connection_id {
                self@.lemma_unallocated_id(connection_id);
            }
        }
        match self.find_owner(connection_id) {
            Some(i) => {
                match self.connected_clients[i].get_connection(connection_id) {
                    Ok(connection) => connection.get_response(),
                    Err(e) => Err(e),
                }
            },
            None => Err(HttpFailureReason::ConnectionIdNotFound),
        }
    }
}

/// The deadline of the connection `connection_id`, held by
/// `client_principal`, has passed: the connection fails with a timeout if
/// it still waits. If the proxy has gone, or the connection has an outcome
/// already, nothing changes.
pub fn http_connection_timeout(
    state: &mut State,
    client_principal: &Principal,
    connection_id: HttpConnectionId,
)
    requires
        old(state).wf(),
    ensures
        final(state).wf(),
        final(state)@ == old(state)@.update_connection_state(
            client_principal@,
            connection_id,
            HttpResultView::Failure(HttpFailureReasonView::RequestTimeout),
        ),
        StateView::reported(
            old(state)@,
            final(state)@,
            client_principal@,
            connection_id,
            HttpResultView::Failure(HttpFailureReasonView::RequestTimeout),
        ),
{
    state.report_connection_failure(
        client_principal,
        connection_id,
        HttpFailureReason::RequestTimeout,
    );
}

} // verus!
