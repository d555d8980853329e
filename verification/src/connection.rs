//! The life of one connection: it waits for a response until a response or
//! a failure is recorded, and whichever is recorded first stays for good.

use vstd::prelude::*;
use crate::types::{
    callback_view,
    GetHttpResponseResult,
    HttpCallback,
    HttpConnectionId,
    HttpFailureReason,
    HttpFailureReasonView,
    HttpRequest,
    HttpRequestTimeoutMs,
    HttpRequestView,
    HttpResponse,
    HttpResponseView,
    HttpResult,
    HttpResultView,
};

verus! {

pub enum HttpConnectionStateView {
    /// No response yet. The first field is the deadline that was set for
    /// the connection, the second the handler to run on its response.
    WaitingForResponse(Option<HttpRequestTimeoutMs>, Option<Seq<char>>),
    /// The reason that was reported for the connection while it waited.
    Failed(HttpFailureReasonView),
    Success(HttpResponseView),
}

impl HttpConnectionStateView {
    /// A state that no event changes any more.
    pub open spec fn is_terminal(self) -> bool {
        !(self is WaitingForResponse)
    }

    /// The state after a result has been reported: the result if the
    /// connection was waiting, whatever the result is; the state as it was
    /// otherwise.
    pub open spec fn after(self, result: HttpResultView) -> HttpConnectionStateView {
        match self {
            HttpConnectionStateView::WaitingForResponse(_, _) => match result {
                HttpResultView::Success(response) => HttpConnectionStateView::Success(response),
                HttpResultView::Failure(reason) => HttpConnectionStateView::Failed(reason),
            },
            _ => self,
        }
    }

    /// What the host has to do once an outcome has been reported: only a
    /// response to a waiting connection stops the deadline timer, if one
    /// was set, and runs the handler, if one was given.
    pub open spec fn effects(self, result: HttpResultView) -> HttpConnectionEffectsView {
        match self {
            HttpConnectionStateView::WaitingForResponse(timeout_ms, callback) => match result {
                HttpResultView::Success(_) => HttpConnectionEffectsView {
                    clear_timer: timeout_ms is Some,
                    callback,
                },
                HttpResultView::Failure(_) => HttpConnectionEffectsView::none(),
            },
            _ => HttpConnectionEffectsView::none(),
        }
    }

    /// What a caller who asks for the response is told.
    pub open spec fn response(self) -> Result<HttpResponseView, HttpFailureReasonView> {
        match self {
            HttpConnectionStateView::WaitingForResponse(_, _) => Err(
                HttpFailureReasonView::NotYetReceived,
            ),
            HttpConnectionStateView::Failed(reason) => Err(reason),
            HttpConnectionStateView::Success(response) => Ok(response),
        }
    }

    /// A caller is given a response exactly when the connection has one,
    /// and is told of a failure the reason that was recorded. A connection
    /// that waits is told to have received nothing yet.
    pub proof fn lemma_response(self)
        ensures
            self.response() is Ok <==> self is Success,
            self matches HttpConnectionStateView::Success(response) ==> self.response() == Ok::<
                HttpResponseView,
                HttpFailureReasonView,
            >(response),
            self matches HttpConnectionStateView::Failed(reason) ==> self.response() == Err::<
                HttpResponseView,
                HttpFailureReasonView,
            >(reason),
            self is WaitingForResponse ==> self.response() == Err::<
                HttpResponseView,
                HttpFailureReasonView,
            >(HttpFailureReasonView::NotYetReceived),
    {
    }

    /// A result that is reported to a waiting connection is what a caller
    /// is told from then on: the response, or the failure's reason,
    /// whichever reason it is.
    pub proof fn lemma_reported_result_is_told(self, result: HttpResultView)
        requires
            self is WaitingForResponse,
        ensures
            self.after(result).is_terminal(),
            result matches HttpResultView::Success(response) ==> self.after(result).response()
                == Ok::<HttpResponseView, HttpFailureReasonView>(response),
            result matches HttpResultView::Failure(reason) ==> self.after(result).response()
                == Err::<HttpResponseView, HttpFailureReasonView>(reason),
    {
    }
}

pub struct HttpConnectionView {
    pub id: HttpConnectionId,
    pub request: HttpRequestView,
    pub state: HttpConnectionStateView,
}

impl HttpConnectionView {
    /// The connection as it is created: waiting.
    pub open spec fn new(
        id: HttpConnectionId,
        request: HttpRequestView,
        callback: Option<Seq<char>>,
        timeout_ms: Option<HttpRequestTimeoutMs>,
    ) -> HttpConnectionView {
        HttpConnectionView {
            id,
            request,
            state: HttpConnectionStateView::WaitingForResponse(timeout_ms, callback),
        }
    }

    /// The connection after an outcome has been reported. Its id and its
    /// request never change.
    pub open spec fn after(self, result: HttpResultView) -> HttpConnectionView {
        HttpConnectionView { id: self.id, request: self.request, state: self.state.after(result) }
    }
}

/// What the host has to do after a connection has taken an outcome.
#[derive(Debug, PartialEq, Eq)]
pub struct HttpConnectionEffects {
    /// The deadline timer of the connection is to be stopped.
    pub clear_timer: bool,
    /// The handler to run with the response.
    pub callback: Option<HttpCallback>,
}

pub struct HttpConnectionEffectsView {
    pub clear_timer: bool,
    pub callback: Option<Seq<char>>,
}

impl HttpConnectionEffectsView {
    pub open spec fn none() -> HttpConnectionEffectsView {
        HttpConnectionEffectsView { clear_timer: false, callback: None }
    }
}

impl View for HttpConnectionEffects {
    type V = HttpConnectionEffectsView;

    open spec fn view(&self) -> HttpConnectionEffectsView {
        HttpConnectionEffectsView {
            clear_timer: self.clear_timer,
            callback: callback_view(self.callback),
        }
    }
}

pub enum HttpConnectionState {
    WaitingForResponse((Option<HttpRequestTimeoutMs>, Option<HttpCallback>)),
    Failed(HttpFailureReason),
    Success(HttpResponse),
}

impl View for HttpConnectionState {
    type V = HttpConnectionStateView;

    open spec fn view(&self) -> HttpConnectionStateView {
        match self {
            HttpConnectionState::WaitingForResponse((timeout_ms, callback)) => {
                HttpConnectionStateView::WaitingForResponse(*timeout_ms, callback_view(*callback))
            },
            HttpConnectionState::Failed(reason) => HttpConnectionStateView::Failed(reason@),
            HttpConnectionState::Success(response) => HttpConnectionStateView::Success(response@),
        }
    }
}

impl HttpConnectionState {
    pub fn new(timeout_ms: Option<HttpRequestTimeoutMs>, callback: Option<HttpCallback>) -> (state:
        Self)
        ensures
            state@ == HttpConnectionStateView::WaitingForResponse(
                timeout_ms,
                callback_view(callback),
            ),
    {
        HttpConnectionState::WaitingForResponse((timeout_ms, callback))
    }
}

pub struct HttpConnection {
    id: HttpConnectionId,
    request: HttpRequest,
    state: HttpConnectionState,
}

impl View for HttpConnection {
    type V = HttpConnectionView;

    closed spec fn view(&self) -> HttpConnectionView {
        HttpConnectionView { id: self.id, request: self.request@, state: self.state@ }
    }
}

impl HttpConnection {
    pub fn new(
        id: HttpConnectionId,
        request: HttpRequest,
        callback: Option<HttpCallback>,
        timeout_ms: Option<HttpRequestTimeoutMs>,
    ) -> (connection: Self)
        ensures
            connection@ == HttpConnectionView::new(
                id,
                request@,
                callback_view(callback),
                timeout_ms,
            ),
    {
        HttpConnection { id, request, state: HttpConnectionState::new(timeout_ms, callback) }
    }

    pub fn id(&self) -> (id: HttpConnectionId)
        ensures
            id == self@.id,
    {
        self.id
    }

    pub fn get_request(&self) -> (request: HttpRequest)
        ensures
            request@ == self@.request,
    {
        self.request.clone()
    }

    pub fn get_response(&self) -> (response: GetHttpResponseResult)
        ensures
            match self@.state.response() {
                Ok(r) => response is Ok && response->Ok_0@ == r,
                Err(e) => response is Err && response->Err_0@ == e,
            },
    {
        match &self.state {
            HttpConnectionState::WaitingForResponse(_) => Err(HttpFailureReason::NotYetReceived),
            HttpConnectionState::Failed(reason) => Err(reason.clone()),
            HttpConnectionState::Success(response) => Ok(response.clone()),
        }
    }

    /// Records a result. A connection that waits takes it: a response, or
    /// a failure with whatever reason is given. A connection that already
    /// has an outcome keeps the one it has, and the host has nothing to do.
    pub fn update_state(&mut self, http_result: HttpResult) -> (effects: HttpConnectionEffects)
        ensures
            final(self)@ == old(self)@.after(http_result@),
            effects@ == old(self)@.state.effects(http_result@),
    {
        match &self.state {
            HttpConnectionState::WaitingForResponse((timeout_ms, callback)) => {
                match http_result {
                    HttpResult::Success(response) => {
                        let effects = HttpConnectionEffects {
                            clear_timer: timeout_ms.is_some(),
                            callback: match callback {
                                Some(name) => Some(name.clone()),
                                None => None,
                            },
                        };
                        self.state = HttpConnectionState::Success(response);
                        effects
                    },
                    HttpResult::Failure(reason) => {
                        self.state = HttpConnectionState::Failed(reason);
                        HttpConnectionEffects { clear_timer: false, callback: None }
                    },
                }
            },
            HttpConnectionState::Failed(_) => HttpConnectionEffects {
                clear_timer: false,
                callback: None,
            },
            HttpConnectionState::Success(_) => HttpConnectionEffects {
                clear_timer: false,
                callback: None,
            },
        }
    }
}

} // verus!
