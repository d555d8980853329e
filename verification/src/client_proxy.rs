//! One connected proxy and the connections that were assigned to it.

use std::collections::BTreeMap;
use vstd::prelude::*;
use crate::connection::{
    HttpConnection,
    HttpConnectionEffects,
    HttpConnectionEffectsView,
    HttpConnectionView,
};
use crate::principal::Principal;
use crate::types::{
    HttpConnectionId,
    HttpFailureReason,
    HttpFailureReasonView,
    HttpResult,
    HttpResultView,
};

verus! {

pub struct ClientProxyView {
    pub principal: Seq<u8>,
    /// The connections assigned to the proxy, by id.
    pub connections: Map<HttpConnectionId, HttpConnectionView>,
}

impl ClientProxyView {
    /// A proxy that has just connected: nothing is assigned to it.
    pub open spec fn new(principal: Seq<u8>) -> ClientProxyView {
        ClientProxyView { principal, connections: Map::empty() }
    }

    pub open spec fn with_connections(
        self,
        connections: Map<HttpConnectionId, HttpConnectionView>,
    ) -> ClientProxyView {
        ClientProxyView { principal: self.principal, connections }
    }

    /// The proxy after a result has been reported for the connection it
    /// holds under `id`: that connection after the result. A proxy that
    /// holds no such connection stays as it is.
    pub open spec fn reported(self, id: HttpConnectionId, result: HttpResultView) -> ClientProxyView {
        if self.connections.contains_key(id) {
            self.with_connections(self.connections.insert(id, self.connections[id].after(result)))
        } else {
            self
        }
    }

    /// What the host has to do after a result has been reported for the
    /// connection held under `id`: nothing, if no such connection is held.
    pub open spec fn reported_effects(
        self,
        id: HttpConnectionId,
        result: HttpResultView,
    ) -> HttpConnectionEffectsView {
        if self.connections.contains_key(id) {
            self.connections[id].state.effects(result)
        } else {
            HttpConnectionEffectsView::none()
        }
    }
}

pub struct ClientProxy {
    principal: Principal,
    connections: BTreeMap<HttpConnectionId, HttpConnection>,
}

impl View for ClientProxy {
    type V = ClientProxyView;

    closed spec fn view(&self) -> ClientProxyView {
        ClientProxyView {
            principal: self.principal@,
            connections: self.connections@.map_values(|c: HttpConnection| c@),
        }
    }
}

impl ClientProxy {
    pub fn new(principal: Principal) -> (proxy: Self)
        ensures
            proxy@ == ClientProxyView::new(principal@),
    {
        let proxy = ClientProxy { principal, connections: BTreeMap::new() };
        assert(proxy@.connections =~= Map::empty());
        proxy
    }

    pub fn principal(&self) -> (principal: &Principal)
        ensures
            principal@ == self@.principal,
    {
        &self.principal
    }

    /// Whether a connection is held under `connection_id`.
    pub fn has_connection(&self, connection_id: HttpConnectionId) -> (held: bool)
        ensures
            held == self@.connections.contains_key(connection_id),
    {
        broadcast use vstd::std_specs::btree::group_btree_axioms;

        self.connections.contains_key(&connection_id)
    }

    /// Holds `connection` under `connection_id`, in place of what was held
    /// under that key before, if anything.
    pub fn assign_connection(&mut self, connection_id: HttpConnectionId, connection: HttpConnection)
        ensures
            final(self)@ == old(self)@.with_connections(
                old(self)@.connections.insert(connection_id, connection@),
            ),
    {
        broadcast use vstd::std_specs::btree::group_btree_axioms;

        self.connections.insert(connection_id, connection);
        assert(self@.connections =~= old(self)@.connections.insert(connection_id, connection@));
    }

    /// The connection held under `connection_id`.
    pub fn get_connection(&self, connection_id: HttpConnectionId) -> (connection: Result<
        &HttpConnection,
        HttpFailureReason,
    >)
        ensures
            match connection {
                Ok(c) => self@.connections.contains_key(connection_id) && c@
                    == self@.connections[connection_id],
                Err(e) => !self@.connections.contains_key(connection_id) && e@
                    == HttpFailureReasonView::ConnectionIdNotFound,
            },
    {
        broadcast use vstd::std_specs::btree::group_btree_axioms;

        match self.connections.get(&connection_id) {
            Some(c) => Ok(c),
            None => Err(HttpFailureReason::ConnectionIdNotFound),
        }
    }

    /// Reports a result for the connection held under `connection_id`.
    /// Without such a connection nothing changes, and the host has nothing
    /// to do.
    pub fn update_connection_state(
        &mut self,
        connection_id: HttpConnectionId,
        http_result: HttpResult,
    ) -> (effects: HttpConnectionEffects)
        ensures
            final(self)@ == old(self)@.reported(connection_id, http_result@),
            effects@ == old(self)@.reported_effects(connection_id, http_result@),
    {
        broadcast use vstd::std_specs::btree::group_btree_axioms;

        match self.connections.remove(&connection_id) {
            Some(connection) => {
                let mut connection = connection;
                let effects = connection.update_state(http_result);
                self.connections.insert(connection_id, connection);
                assert(self@.connections =~= old(self)@.connections.insert(
                    connection_id,
                    old(self)@.connections[connection_id].after(http_result@),
                ));
                effects
            },
            None => {
                assert(self@.connections =~= old(self)@.connections);
                HttpConnectionEffects { clear_timer: false, callback: None }
            },
        }
    }

    /// Reports a failure for the connection held under `connection_id`.
    pub fn report_connection_failure(
        &mut self,
        connection_id: HttpConnectionId,
        reason: HttpFailureReason,
    )
        ensures
            final(self)@ == old(self)@.reported(
                connection_id,
                HttpResultView::Failure(reason@),
            ),
    {
        let _ = self.update_connection_state(connection_id, HttpResult::Failure(reason));
    }
}

} // verus!
