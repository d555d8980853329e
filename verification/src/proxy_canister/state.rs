//! What the proxy canister keeps about the requests it has issued.

use std::collections::HashMap;
use vstd::prelude::*;
use crate::proxy_canister_types::{
    CanisterCallbackMethodName,
    CanisterId,
    CanisterRequest,
    CanisterRequestView,
    RequestStateView,
};
use crate::types::{callback_view, HttpConnectionId};

verus! {

pub struct ProxyState {
    requests: HashMap<HttpConnectionId, CanisterRequest>,
}

impl View for ProxyState {
    type V = Map<HttpConnectionId, CanisterRequestView>;

    closed spec fn view(&self) -> Map<HttpConnectionId, CanisterRequestView> {
        self.requests@.map_values(|r: CanisterRequest| r@)
    }
}

impl ProxyState {
    pub fn new() -> (state: Self)
        ensures
            state@ == Map::<HttpConnectionId, CanisterRequestView>::empty(),
    {
        let state = Self { requests: HashMap::new() };
        assert(state@ =~= Map::<HttpConnectionId, CanisterRequestView>::empty());
        state
    }

    /// Records that `canister_id` has asked for the request `request_id`.
    /// What is recorded under that id already stays.
    pub fn start_request_for_canister(
        &mut self,
        canister_id: CanisterId,
        request_id: HttpConnectionId,
        callback_method_name: Option<CanisterCallbackMethodName>,
    )
        ensures
            old(self)@.contains_key(request_id) ==> final(self)@ == old(self)@,
            !old(self)@.contains_key(request_id) ==> final(self)@ == old(self)@.insert(
                request_id,
                (CanisterRequestView {
                    canister_id: canister_id@,
                    state: RequestStateView::Executing(callback_view(callback_method_name)),
                }),
            ),
    {
        broadcast use vstd::std_specs::hash::group_hash_axioms;

        if !self.requests.contains_key(&request_id) {
            let request = CanisterRequest::new(canister_id, callback_method_name);
            let ghost before = self.requests@;
            self.requests.insert(request_id, request);
            assert(self@ =~= before.map_values(|r: CanisterRequest| r@).insert(
                request_id,
                request@,
            ));
        }
    }

    pub fn get_request_state(&self, request_id: HttpConnectionId) -> (request: Option<
        CanisterRequest,
    >)
        ensures
            match request {
                Some(r) => self@.contains_key(request_id) && r@ == self@[request_id],
                None => !self@.contains_key(request_id),
            },
    {
        broadcast use vstd::std_specs::hash::group_hash_axioms;

        match self.requests.get(&request_id) {
            Some(r) => Some(r.clone()),
            None => None,
        }
    }

    /// Marks the request `request_id` as successful, if it is recorded.
    pub fn set_request_successful(&mut self, request_id: HttpConnectionId)
        ensures
            old(self)@.contains_key(request_id) ==> final(self)@ == old(self)@.insert(
                request_id,
                (CanisterRequestView {
                    canister_id: old(self)@[request_id].canister_id,
                    state: RequestStateView::Successful,
                }),
            ),
            !old(self)@.contains_key(request_id) ==> final(self)@ == old(self)@,
    {
        broadcast use vstd::std_specs::hash::group_hash_axioms;

        let ghost before = self.requests@;
        match self.requests.remove(&request_id) {
            Some(r) => {
                let mut r = r;
                r.success();
                self.requests.insert(request_id, r);
                assert(self@ =~= before.map_values(|r: CanisterRequest| r@).insert(
                    request_id,
                    r@,
                ));
            },
            None => {
                assert(self@ =~= before.map_values(|r: CanisterRequest| r@));
            },
        }
    }

    /// Marks the request `request_id` as failed for `reason`, if it is
    /// recorded.
    pub fn set_request_failed(&mut self, request_id: HttpConnectionId, reason: String)
        ensures
            old(self)@.contains_key(request_id) ==> final(self)@ == old(self)@.insert(
                request_id,
                (CanisterRequestView {
                    canister_id: old(self)@[request_id].canister_id,
                    state: RequestStateView::Failed(reason@),
                }),
            ),
            !old(self)@.contains_key(request_id) ==> final(self)@ == old(self)@,
    {
        broadcast use vstd::std_specs::hash::group_hash_axioms;

        let ghost before = self.requests@;
        match self.requests.remove(&request_id) {
            Some(r) => {
                let mut r = r;
                r.fail(reason);
                self.requests.insert(request_id, r);
                assert(self@ =~= before.map_values(|r: CanisterRequest| r@).insert(
                    request_id,
                    r@,
                ));
            },
            None => {
                assert(self@ =~= before.map_values(|r: CanisterRequest| r@));
            },
        }
    }
}

} // verus!
