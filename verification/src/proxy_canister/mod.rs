//! The proxy canister: it takes HTTP requests from other canisters, checks
//! them, issues them through the registry, and calls the asking canister
//! back with the response.

pub mod constants;
pub mod requests;
pub mod state;

use vstd::prelude::*;
use crate::handlers::{execute_http_request, OutgoingHttpRequest};
use crate::message::{encode_message, HttpOverWsMessageView};
use crate::principal::Principal;
use crate::proxy_canister::requests::{checked_request, validate_incoming_request};
use crate::proxy_canister::state::ProxyState;
use crate::proxy_canister_types::{
    CanisterCallbackMethodName,
    CanisterId,
    CanisterRequestView,
    HttpRequestEndpointArgs,
    ProxyError,
    ProxyErrorView,
    RequestState,
    RequestStateView,
};
use crate::state::{State, StateView};
use crate::types::HttpConnectionId;

verus! {

/// What `http_request` says when the request could not be issued.
pub open spec fn http_over_ws_error_text() -> Seq<char> {
    "http_over_ws error"@
}

/// What the proxy canister keeps once `canister_id` has asked for the
/// request `request_id`: what it kept under that id before, if anything,
/// else a request that is under way.
pub open spec fn started(
    requests: Map<HttpConnectionId, CanisterRequestView>,
    canister_id: Seq<u8>,
    request_id: HttpConnectionId,
    callback_method_name: Option<Seq<char>>,
) -> Map<HttpConnectionId, CanisterRequestView> {
    if requests.contains_key(request_id) {
        requests
    } else {
        requests.insert(
            request_id,
            (CanisterRequestView {
                canister_id,
                state: RequestStateView::Executing(callback_method_name),
            }),
        )
    }
}

/// A canister asks for an HTTP request. The caller must not be anonymous.
///
/// A request that does not pass the check is refused, and nothing changes.
/// One that passes is issued through the registry, with the method to call
/// back as its handler; if the registry does not take it, for want of a
/// proxy or of an id, that fails, else the request is recorded for the
/// caller and what is to be sent is returned.
pub fn http_request(
    state: &mut State,
    proxy_state: &mut ProxyState,
    canister_id: CanisterId,
    args: HttpRequestEndpointArgs,
) -> (issued: Result<OutgoingHttpRequest, ProxyError>)
    requires
        old(state).wf(),
        canister_id@ != Principal::anonymous_bytes(),
    ensures
        final(state).wf(),
        checked_request(args@) matches Err(e) ==> issued is Err && issued->Err_0@
            == ProxyErrorView::InvalidRequest(e),
        checked_request(args@) is Err ==> final(state)@ == old(state)@,
        checked_request(args@) is Ok ==> final(state)@ == old(state)@.assign_connection(
            args@.request,
            args@.callback_method_name,
            args@.timeout_ms,
        ),
        checked_request(args@) is Ok ==> StateView::issued(
            old(state)@,
            final(state)@,
            args@.request,
            args@.callback_method_name,
            args@.timeout_ms,
        ),
        checked_request(args@) is Ok && !old(state)@.takes_request() ==> issued is Err
            && issued->Err_0@ == ProxyErrorView::Generic(http_over_ws_error_text()),
        checked_request(args@) is Ok && old(state)@.takes_request() ==> issued is Ok,
        issued is Err ==> final(proxy_state)@ == old(proxy_state)@,
        issued is Ok ==> final(proxy_state)@ == started(
            old(proxy_state)@,
            canister_id@,
            old(state)@.fresh_id(),
            args@.callback_method_name,
        ),
        issued matches Ok(out) ==> out.connection_id == old(state)@.fresh_id(),
        issued matches Ok(out) ==> out.proxy_principal@ == old(state)@.assigned_principal(),
        issued matches Ok(out) ==> out.message@ == encode_message(
            HttpOverWsMessageView::HttpRequest(old(state)@.fresh_id(), args@.request),
        ),
        issued matches Ok(out) ==> out.timeout_ms == args@.timeout_ms,
{
    match validate_incoming_request(&args) {
        Ok(_) => {},
        Err(e) => {
            return Err(ProxyError::InvalidRequest(e));
        },
    }
    let callback = match &args.callback_method_name {
        Some(name) => Some(name.clone()),
        None => None,
    };
    let outgoing = match execute_http_request(state, args.request, callback, args.timeout_ms) {
        Ok(outgoing) => outgoing,
        Err(_) => {
            return Err(ProxyError::Generic("http_over_ws error".to_owned()));
        },
    };
    proxy_state.start_request_for_canister(
        canister_id,
        outgoing.connection_id,
        args.callback_method_name,
    );
    Ok(outgoing)
}

/// The canister and the method to call once the response to the request
/// `request_id` is there: those of a recorded request that is under way
/// and asked to be called back.
pub open spec fn callback_target_of(
    requests: Map<HttpConnectionId, CanisterRequestView>,
    request_id: HttpConnectionId,
) -> Option<(Seq<u8>, Seq<char>)> {
    if requests.contains_key(request_id) {
        match requests[request_id].state {
            RequestStateView::Executing(Some(method_name)) => Some(
                (requests[request_id].canister_id, method_name),
            ),
            _ => None,
        }
    } else {
        None
    }
}

pub fn callback_target(proxy_state: &ProxyState, request_id: HttpConnectionId) -> (target: Option<
    (CanisterId, CanisterCallbackMethodName),
>)
    ensures
        match callback_target_of(proxy_state@, request_id) {
            Some(t) => target is Some && (target->0).0@ == t.0 && (target->0).1@ == t.1,
            None => target is None,
        },
{
    match proxy_state.get_request_state(request_id) {
        Some(r) => match r.state {
            RequestState::Executing(Some(method_name)) => Some((r.canister_id, method_name)),
            _ => None,
        },
        None => None,
    }
}

/// Records how the call back to the asking canister went: the request is
/// successful if the call returned, failed with the call's error if not.
pub fn callback_completed(
    proxy_state: &mut ProxyState,
    request_id: HttpConnectionId,
    canister_res: Result<(), String>,
)
    ensures
        !old(proxy_state)@.contains_key(request_id) ==> final(proxy_state)@ == old(proxy_state)@,
        old(proxy_state)@.contains_key(request_id) ==> final(proxy_state)@
            == old(proxy_state)@.insert(
            request_id,
            (CanisterRequestView {
                canister_id: old(proxy_state)@[request_id].canister_id,
                state: match canister_res {
                    Ok(_) => RequestStateView::Successful,
                    Err(e) => RequestStateView::Failed(e@),
                },
            }),
        ),
{
    match canister_res {
        Ok(_) => {
            proxy_state.set_request_successful(request_id);
        },
        Err(e) => {
            proxy_state.set_request_failed(request_id, e);
        },
    }
}

/// Whether `caller` is among the controllers of the canister.
pub fn is_controller(controllers: &Vec<Principal>, caller: &Principal) -> (found: bool)
    ensures
        found == exists|i: int| 0 <= i < controllers.len() && controllers[i]@ == caller@,
{
    let mut i: usize = 0;
    while i < controllers.len()
        invariant
            i <= controllers.len(),
            forall|j: int| 0 <= j < i ==> controllers[j]@ != caller@,
        decreases controllers.len() - i,
    {
        if controllers[i].is(caller) {
            return true;
        }
        i += 1;
    }
    false
}

} // verus!
