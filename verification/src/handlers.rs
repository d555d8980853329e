//! What the host calls: issuing a request, handing in a payload that
//! arrived from a proxy, reporting that a proxy has gone, and asking for a
//! connection's request or response.
//!
//! The registry is handed to every function; the library holds no state of
//! its own. Nothing here sends, schedules or runs anything: every function
//! returns what the host has to send, to schedule, to stop or to run.

use vstd::prelude::*;
use crate::connection::HttpConnectionEffectsView;
use crate::message::{
    decode_message,
    encode_message,
    not_a_message_text,
    HttpOverWsMessage,
    HttpOverWsMessageView,
};
use crate::principal::Principal;
use crate::state::{client_not_connected_text, State, StateView};
use crate::types::{
    callback_view,
    GetHttpResponseResult,
    HttpCallback,
    HttpConnectionId,
    HttpFailureReason,
    HttpFailureReasonView,
    HttpOverWsError,
    HttpOverWsErrorView,
    HttpRequest,
    HttpRequestTimeoutMs,
    HttpRequestView,
    HttpResponse,
    HttpResponseView,
    HttpResult,
    HttpResultView,
};

verus! {

/// A request on its way to a proxy.
#[derive(Debug, PartialEq, Eq)]
pub struct OutgoingHttpRequest {
    /// The id of the connection that was created for the request.
    pub connection_id: HttpConnectionId,
    /// The proxy to send `message` to.
    pub proxy_principal: Principal,
    /// The encoded message that asks the proxy to perform the request.
    pub message: Vec<u8>,
    /// The deadline after which the host reports a timeout for the
    /// connection, if one was asked for.
    pub timeout_ms: Option<HttpRequestTimeoutMs>,
}

pub type ExecuteHttpRequestResult = Result<OutgoingHttpRequest, HttpOverWsError>;

/// A handler that is due to run with the response of a connection.
#[derive(Debug, PartialEq, Eq)]
pub struct HttpCallbackCall {
    pub callback: HttpCallback,
    pub connection_id: HttpConnectionId,
    pub response: HttpResponse,
}

pub struct HttpCallbackCallView {
    pub callback: Seq<char>,
    pub connection_id: HttpConnectionId,
    pub response: HttpResponseView,
}

impl View for HttpCallbackCall {
    type V = HttpCallbackCallView;

    open spec fn view(&self) -> HttpCallbackCallView {
        HttpCallbackCallView {
            callback: self.callback@,
            connection_id: self.connection_id,
            response: self.response@,
        }
    }
}

/// What the host has to do after a message has been handled.
#[derive(Debug, PartialEq, Eq)]
pub struct HandledHttpOverWsMessage {
    /// The connection whose deadline timer is to be stopped.
    pub timer_to_clear: Option<HttpConnectionId>,
    /// The handler to run.
    pub callback: Option<HttpCallbackCall>,
}

pub struct HandledHttpOverWsMessageView {
    pub timer_to_clear: Option<HttpConnectionId>,
    pub callback: Option<HttpCallbackCallView>,
}

impl HandledHttpOverWsMessageView {
    pub open spec fn nothing() -> HandledHttpOverWsMessageView {
        HandledHttpOverWsMessageView { timer_to_clear: None, callback: None }
    }

    /// What is due once a proxy has handed in `response` for the connection
    /// `id`, given what the connection asks for.
    pub open spec fn of_response(
        effects: HttpConnectionEffectsView,
        id: HttpConnectionId,
        response: HttpResponseView,
    ) -> HandledHttpOverWsMessageView {
        HandledHttpOverWsMessageView {
            timer_to_clear: if effects.clear_timer {
                Some(id)
            } else {
                None
            },
            callback: match effects.callback {
                Some(callback) => Some(HttpCallbackCallView { callback, connection_id: id, response }),
                None => None,
            },
        }
    }
}

impl View for HandledHttpOverWsMessage {
    type V = HandledHttpOverWsMessageView;

    open spec fn view(&self) -> HandledHttpOverWsMessageView {
        HandledHttpOverWsMessageView {
            timer_to_clear: self.timer_to_clear,
            callback: match self.callback {
                Some(call) => Some(call@),
                None => None,
            },
        }
    }
}

/// The registry after `principal` has sent a payload that holds `message`,
/// or no message at all.
///
/// An announcement connects the sender. A response or an error that names
/// a connection is an outcome that the sender reports for that connection.
/// An error that names no connection changes nothing. A request changes
/// nothing either: only the library issues requests.
pub open spec fn state_after_message(
    state: StateView,
    principal: Seq<u8>,
    message: Option<HttpOverWsMessageView>,
) -> StateView {
    match message {
        Some(HttpOverWsMessageView::SetupProxyClient) => state.add_client(principal),
        Some(HttpOverWsMessageView::HttpResponse(id, response)) => state.update_connection_state(
            principal,
            id,
            HttpResultView::Success(response),
        ),
        Some(HttpOverWsMessageView::Error(Some(id), text)) => state.update_connection_state(
            principal,
            id,
            HttpResultView::Failure(HttpFailureReasonView::ProxyError(text)),
        ),
        Some(HttpOverWsMessageView::Error(None, _)) => state,
        Some(HttpOverWsMessageView::HttpRequest(_, _)) => state,
        None => state,
    }
}

/// The outcome that a message reports, and the connection that it reports
/// it for: a response is a success, an error that names a connection a
/// failure.
pub open spec fn reported_outcome(message: Option<HttpOverWsMessageView>) -> Option<
    (HttpConnectionId, HttpResultView),
> {
    match message {
        Some(HttpOverWsMessageView::HttpResponse(id, response)) => Some(
            (id, HttpResultView::Success(response)),
        ),
        Some(HttpOverWsMessageView::Error(Some(id), text)) => Some(
            (id, HttpResultView::Failure(HttpFailureReasonView::ProxyError(text))),
        ),
        _ => None,
    }
}

/// What handling a message comes to, seen from outside: an announcement
/// connects the sender; a response or an error that names a connection is
/// reported by the sender for that connection; anything else changes
/// nothing.
pub open spec fn message_handled(
    before: StateView,
    after: StateView,
    principal: Seq<u8>,
    message: Option<HttpOverWsMessageView>,
) -> bool {
    match message {
        Some(HttpOverWsMessageView::SetupProxyClient) => StateView::joined(before, after, principal),
        _ => match reported_outcome(message) {
            Some((id, result)) => StateView::reported(before, after, principal, id, result),
            None => after == before,
        },
    }
}

/// What the sender's payload comes to. A payload that holds no message is
/// not of this protocol; a request is a message that a proxy may not send;
/// every other message is accepted, whether or not it changes anything.
pub open spec fn outcome_of_message(
    state: StateView,
    principal: Seq<u8>,
    message: Option<HttpOverWsMessageView>,
) -> Result<HandledHttpOverWsMessageView, HttpOverWsErrorView> {
    match message {
        Some(HttpOverWsMessageView::SetupProxyClient) => Ok(HandledHttpOverWsMessageView::nothing()),
        Some(HttpOverWsMessageView::HttpResponse(id, response)) => Ok(
            HandledHttpOverWsMessageView::of_response(
                state.update_effects(principal, id, HttpResultView::Success(response)),
                id,
                response,
            ),
        ),
        Some(HttpOverWsMessageView::Error(_, _)) => Ok(HandledHttpOverWsMessageView::nothing()),
        Some(HttpOverWsMessageView::HttpRequest(_, _)) => Err(
            HttpOverWsErrorView::InvalidHttpMessage,
        ),
        None => Err(HttpOverWsErrorView::NotHttpOverWsType(not_a_message_text())),
    }
}

/// Handles a payload that `proxy_principal` has sent.
///
/// Called for every payload that arrives on the channel. The error
/// `NotHttpOverWsType` tells the caller that the payload is none of this
/// protocol's and is the caller's own to interpret.
pub fn try_handle_http_over_ws_message(
    state: &mut State,
    proxy_principal: Principal,
    serialized_message: Vec<u8>,
) -> (handled: Result<HandledHttpOverWsMessage, HttpOverWsError>)
    requires
        old(state).wf(),
    ensures
        final(state).wf(),
        final(state)@ == state_after_message(
            old(state)@,
            proxy_principal@,
            decode_message(serialized_message@),
        ),
        match outcome_of_message(
            old(state)@,
            proxy_principal@,
            decode_message(serialized_message@),
        ) {
            Ok(h) => handled is Ok && handled->Ok_0@ == h,
            Err(e) => handled is Err && handled->Err_0@ == e,
        },
        message_handled(
            old(state)@,
            final(state)@,
            proxy_principal@,
            decode_message(serialized_message@),
        ),
{
    let incoming_msg = match HttpOverWsMessage::from_bytes(serialized_message.as_slice()) {
        Ok(m) => m,
        Err(e) => {
            return Err(HttpOverWsError::NotHttpOverWsType(e));
        },
    };
    handle_http_over_ws_message(state, proxy_principal, incoming_msg)
}

/// Handles a message that `proxy_principal` has sent.
pub fn handle_http_over_ws_message(
    state: &mut State,
    proxy_principal: Principal,
    incoming_msg: HttpOverWsMessage,
) -> (handled: Result<HandledHttpOverWsMessage, HttpOverWsError>)
    requires
        old(state).wf(),
    ensures
        final(state).wf(),
        final(state)@ == state_after_message(old(state)@, proxy_principal@, Some(incoming_msg@)),
        match outcome_of_message(old(state)@, proxy_principal@, Some(incoming_msg@)) {
            Ok(h) => handled is Ok && handled->Ok_0@ == h,
            Err(e) => handled is Err && handled->Err_0@ == e,
        },
        message_handled(old(state)@, final(state)@, proxy_principal@, Some(incoming_msg@)),
{
    match incoming_msg {
        HttpOverWsMessage::SetupProxyClient => {
            state.add_client(proxy_principal);
            Ok(HandledHttpOverWsMessage { timer_to_clear: None, callback: None })
        },
        HttpOverWsMessage::HttpResponse(request_id, response) => {
            handle_http_response(state, &proxy_principal, request_id, response)
        },
        HttpOverWsMessage::Error(request_id, err) => {
            handle_http_error(state, &proxy_principal, request_id, err)
        },
        HttpOverWsMessage::HttpRequest(_, _) => Err(HttpOverWsError::InvalidHttpMessage),
    }
}

/// Takes `proxy_principal` out of the registry, with the connections it
/// holds: from now on they are not found.
pub fn try_disconnect_http_proxy(state: &mut State, proxy_principal: &Principal) -> (removed:
    Result<(), HttpFailureReason>)
    requires
        old(state).wf(),
    ensures
        final(state).wf(),
        final(state)@ == old(state)@.remove_client(proxy_principal@),
        old(state)@.is_connected(proxy_principal@) ==> removed is Ok,
        !old(state)@.is_connected(proxy_principal@) ==> removed is Err && removed->Err_0@
            == HttpFailureReasonView::ProxyError(client_not_connected_text()),
        StateView::left(old(state)@, final(state)@, proxy_principal@),
{
    state.remove_client(proxy_principal)
}

/// A proxy has handed in the response to a request.
fn handle_http_response(
    state: &mut State,
    proxy_principal: &Principal,
    request_id: HttpConnectionId,
    response: HttpResponse,
) -> (handled: Result<HandledHttpOverWsMessage, HttpOverWsError>)
    requires
        old(state).wf(),
    ensures
        final(state).wf(),
        final(state)@ == old(state)@.update_connection_state(
            proxy_principal@,
            request_id,
            HttpResultView::Success(response@),
        ),
        handled is Ok,
        handled->Ok_0@ == HandledHttpOverWsMessageView::of_response(
            old(state)@.update_effects(
                proxy_principal@,
                request_id,
                HttpResultView::Success(response@),
            ),
            request_id,
            response@,
        ),
        StateView::reported(
            old(state)@,
            final(state)@,
            proxy_principal@,
            request_id,
            HttpResultView::Success(response@),
        ),
{
    let for_callback = response.clone();
    let effects = state.handle_http_response(proxy_principal, request_id, response);
    let timer_to_clear = if effects.clear_timer {
        Some(request_id)
    } else {
        None
    };
    let callback = match effects.callback {
        Some(callback) => Some(
            HttpCallbackCall { callback, connection_id: request_id, response: for_callback },
        ),
        None => None,
    };
    Ok(HandledHttpOverWsMessage { timer_to_clear, callback })
}

/// A proxy has reported an error, about one request or about none.
fn handle_http_error(
    state: &mut State,
    proxy_principal: &Principal,
    request_id: Option<HttpConnectionId>,
    err: String,
) -> (handled: Result<HandledHttpOverWsMessage, HttpOverWsError>)
    requires
        old(state).wf(),
    ensures
        final(state).wf(),
        final(state)@ == state_after_message(
            old(state)@,
            proxy_principal@,
            Some(HttpOverWsMessageView::Error(request_id, err@)),
        ),
        handled is Ok,
        handled->Ok_0@ == HandledHttpOverWsMessageView::nothing(),
        message_handled(
            old(state)@,
            final(state)@,
            proxy_principal@,
            Some(HttpOverWsMessageView::Error(request_id, err@)),
        ),
{
    let reason = HttpFailureReason::ProxyError(err);
    if let Some(request_id) = request_id {
        state.report_connection_failure(proxy_principal, request_id, reason);
    }
    Ok(HandledHttpOverWsMessage { timer_to_clear: None, callback: None })
}

/// Issues a request: allocates its connection, assigns it to a proxy, and
/// returns the message to send to that proxy. With no proxy connected, or
/// with no id left for the connection, no connection is created.
pub fn execute_http_request(
    state: &mut State,
    req: HttpRequest,
    callback: Option<HttpCallback>,
    timeout_ms: Option<HttpRequestTimeoutMs>,
) -> (outgoing: ExecuteHttpRequestResult)
    requires
        old(state).wf(),
    ensures
        final(state).wf(),
        final(state)@ == old(state)@.assign_connection(req@, callback_view(callback), timeout_ms),
        !old(state)@.has_id_left() ==> outgoing is Err && outgoing->Err_0@
            == HttpOverWsErrorView::NoConnectionIdLeft,
        old(state)@.has_id_left() && old(state)@.proxies.len() == 0 ==> outgoing is Err
            && outgoing->Err_0@ == HttpOverWsErrorView::NoProxiesConnected,
        old(state)@.takes_request() ==> outgoing is Ok,
        outgoing matches Ok(out) ==> out.connection_id == old(state)@.fresh_id(),
        outgoing matches Ok(out) ==> out.connection_id > old(state)@.next_connection_id,
        outgoing matches Ok(out) ==> out.connection_id == final(state)@.next_connection_id,
        final(state)@.next_connection_id >= old(state)@.next_connection_id,
        final(state)@.proxies.len() == old(state)@.proxies.len(),
        outgoing matches Ok(out) ==> out.proxy_principal@ == old(state)@.assigned_principal(),
        outgoing matches Ok(out) ==> out.message@ == encode_message(
            HttpOverWsMessageView::HttpRequest(old(state)@.fresh_id(), req@),
        ),
        outgoing matches Ok(out) ==> decode_message(out.message@) == Some(
            HttpOverWsMessageView::HttpRequest(old(state)@.fresh_id(), req@),
        ),
        outgoing matches Ok(out) ==> out.timeout_ms == timeout_ms,
        StateView::issued(old(state)@, final(state)@, req@, callback_view(callback), timeout_ms),
{
    let (assigned_proxy_principal, request_id) = match state.assign_connection(
        req.clone(),
        callback,
        timeout_ms,
    ) {
        Ok(assigned) => assigned,
        Err(e) => {
            return Err(e);
        },
    };
    let message = HttpOverWsMessage::HttpRequest(request_id, req).to_bytes();
    Ok(
        OutgoingHttpRequest {
            connection_id: request_id,
            proxy_principal: assigned_proxy_principal,
            message,
            timeout_ms,
        },
    )
}

/// The request of a connection.
pub fn get_http_connection(state: &State, request_id: HttpConnectionId) -> (request: Option<
    HttpRequest,
>)
    requires
        state.wf(),
    ensures
        match state@.get_http_connection(request_id) {
            Some(r) => request is Some && request->0@ == r,
            None => request is None,
        },
        request_id == 0 || request_id > state@.next_connection_id ==> request is None,
{
    state.get_http_connection(request_id)
}

/// The response of a connection, or the reason why it has none: it is not
/// found, it still waits, it timed out, or its proxy reported an error.
pub fn get_http_response(state: &State, request_id: HttpConnectionId) -> (response:
    GetHttpResponseResult)
    requires
        state.wf(),
    ensures
        match state@.get_http_response(request_id) {
            Ok(r) => response is Ok && response->Ok_0@ == r,
            Err(e) => response is Err && response->Err_0@ == e,
        },
        request_id == 0 || request_id > state@.next_connection_id ==> response is Err
            && response->Err_0@ == HttpFailureReasonView::ConnectionIdNotFound,
{
    state.get_http_response(request_id)
}

} // verus!
