//! What a canister hands to the proxy canister when it asks for an HTTP
//! request, and what the proxy canister keeps about the request.

use vstd::prelude::*;
use crate::principal::Principal;
use crate::types::{
    callback_view,
    HttpRequest,
    HttpRequestId,
    HttpRequestTimeoutMs,
    HttpRequestView,
};

verus! {

pub type CanisterId = Principal;

/// The name of the method that the proxy canister calls on the asking
/// canister once the response is there.
pub type CanisterCallbackMethodName = String;

#[derive(Debug, PartialEq, Eq)]
pub struct HttpRequestEndpointArgs {
    pub request: HttpRequest,
    pub timeout_ms: Option<HttpRequestTimeoutMs>,
    pub callback_method_name: Option<CanisterCallbackMethodName>,
}

pub struct HttpRequestEndpointArgsView {
    pub request: HttpRequestView,
    pub timeout_ms: Option<HttpRequestTimeoutMs>,
    pub callback_method_name: Option<Seq<char>>,
}

impl View for HttpRequestEndpointArgs {
    type V = HttpRequestEndpointArgsView;

    open spec fn view(&self) -> HttpRequestEndpointArgsView {
        HttpRequestEndpointArgsView {
            request: self.request@,
            timeout_ms: self.timeout_ms,
            callback_method_name: callback_view(self.callback_method_name),
        }
    }
}

pub type HttpRequestEndpointResult = Result<HttpRequestId, ProxyError>;

#[derive(Debug, PartialEq, Eq)]
pub enum ProxyError {
    InvalidRequest(InvalidRequest),
    Generic(String),
}

pub enum ProxyErrorView {
    InvalidRequest(InvalidRequestView),
    Generic(Seq<char>),
}

impl View for ProxyError {
    type V = ProxyErrorView;

    open spec fn view(&self) -> ProxyErrorView {
        match self {
            ProxyError::InvalidRequest(e) => ProxyErrorView::InvalidRequest(e@),
            ProxyError::Generic(text) => ProxyErrorView::Generic(text@),
        }
    }
}

#[derive(Debug, PartialEq, Eq)]
pub enum InvalidRequest {
    /// The URL of the request does not parse; the text says why.
    InvalidUrl(String),
    TooManyHeaders,
    InvalidTimeout,
}

pub enum InvalidRequestView {
    InvalidUrl(Seq<char>),
    TooManyHeaders,
    InvalidTimeout,
}

impl View for InvalidRequest {
    type V = InvalidRequestView;

    open spec fn view(&self) -> InvalidRequestView {
        match self {
            InvalidRequest::InvalidUrl(text) => InvalidRequestView::InvalidUrl(text@),
            InvalidRequest::TooManyHeaders => InvalidRequestView::TooManyHeaders,
            InvalidRequest::InvalidTimeout => InvalidRequestView::InvalidTimeout,
        }
    }
}

#[derive(Debug, PartialEq, Eq)]
pub enum RequestState {
    /// The HTTP request is under way; the field is the method to call back.
    Executing(Option<CanisterCallbackMethodName>),
    Successful,
    Failed(String),
}

pub enum RequestStateView {
    Executing(Option<Seq<char>>),
    Successful,
    Failed(Seq<char>),
}

impl View for RequestState {
    type V = RequestStateView;

    open spec fn view(&self) -> RequestStateView {
        match self {
            RequestState::Executing(name) => RequestStateView::Executing(callback_view(*name)),
            RequestState::Successful => RequestStateView::Successful,
            RequestState::Failed(reason) => RequestStateView::Failed(reason@),
        }
    }
}

impl Clone for RequestState {
    fn clone(&self) -> (res: Self)
        ensures
            res@ == self@,
    {
        match self {
            RequestState::Executing(name) => RequestState::Executing(
                match name {
                    Some(n) => Some(n.clone()),
                    None => None,
                },
            ),
            RequestState::Successful => RequestState::Successful,
            RequestState::Failed(reason) => RequestState::Failed(reason.clone()),
        }
    }
}

#[derive(Debug, PartialEq, Eq)]
pub struct CanisterRequest {
    pub canister_id: CanisterId,
    pub state: RequestState,
}

pub struct CanisterRequestView {
    pub canister_id: Seq<u8>,
    pub state: RequestStateView,
}

impl View for CanisterRequest {
    type V = CanisterRequestView;

    open spec fn view(&self) -> CanisterRequestView {
        CanisterRequestView { canister_id: self.canister_id@, state: self.state@ }
    }
}

impl Clone for CanisterRequest {
    fn clone(&self) -> (res: Self)
        ensures
            res@ == self@,
    {
        CanisterRequest { canister_id: self.canister_id.clone(), state: self.state.clone() }
    }
}

impl CanisterRequest {
    pub fn new(
        canister_id: CanisterId,
        callback_method_name: Option<CanisterCallbackMethodName>,
    ) -> (request: Self)
        ensures
            request@ == (CanisterRequestView {
                canister_id: canister_id@,
                state: RequestStateView::Executing(callback_view(callback_method_name)),
            }),
    {
        Self { canister_id, state: RequestState::Executing(callback_method_name) }
    }

    pub fn success(&mut self)
        ensures
            final(self)@ == (CanisterRequestView {
                canister_id: old(self)@.canister_id,
                state: RequestStateView::Successful,
            }),
    {
        self.state = RequestState::Successful;
    }

    pub fn fail(&mut self, reason: String)
        ensures
            final(self)@ == (CanisterRequestView {
                canister_id: old(self)@.canister_id,
                state: RequestStateView::Failed(reason@),
            }),
    {
        self.state = RequestState::Failed(reason);
    }
}

} // verus!
