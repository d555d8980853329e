//! The HTTP values that travel through the tunnel, and the errors the
//! library reports. Every type has a view made of `Seq`, `Option` and
//! integers; all contracts in the crate are stated over these views.

use vstd::prelude::*;

verus! {

/// Identifier of one connection. Allocated by the registry, never reused.
pub type HttpConnectionId = u64;

/// Identifier of one request; the same number as its connection's.
pub type HttpRequestId = u64;

/// How long a connection may wait for its response, in milliseconds.
pub type HttpRequestTimeoutMs = u64;

/// Name of the handler that the host runs once a response has arrived.
pub type HttpCallback = String;

pub type GetHttpResponseResult = Result<HttpResponse, HttpFailureReason>;

/// The handler's name as specifications see it.
pub open spec fn callback_view(callback: Option<HttpCallback>) -> Option<Seq<char>> {
    match callback {
        Some(name) => Some(name@),
        None => None,
    }
}

/// An optional body as specifications see it.
pub open spec fn body_view(body: Option<Vec<u8>>) -> Option<Seq<u8>> {
    match body {
        Some(b) => Some(b@),
        None => None,
    }
}

#[derive(Clone, Copy, Debug, PartialEq, Eq, Structural)]
pub enum HttpMethod {
    GET,
    POST,
    PUT,
    HEAD,
    DELETE,
}

#[derive(Debug, PartialEq, Eq)]
pub struct HttpHeader {
    pub name: String,
    pub value: String,
}

pub struct HttpHeaderView {
    pub name: Seq<char>,
    pub value: Seq<char>,
}

impl View for HttpHeader {
    type V = HttpHeaderView;

    open spec fn view(&self) -> HttpHeaderView {
        HttpHeaderView { name: self.name@, value: self.value@ }
    }
}

impl Clone for HttpHeader {
    fn clone(&self) -> (res: Self)
        ensures
            res@ == self@,
    {
        HttpHeader { name: self.name.clone(), value: self.value.clone() }
    }
}

/// The views of a list of headers, in order.
pub open spec fn headers_view(headers: Seq<HttpHeader>) -> Seq<HttpHeaderView> {
    Seq::new(headers.len(), |i: int| headers[i]@)
}

/// A copy of a header list.
pub fn clone_headers(headers: &Vec<HttpHeader>) -> (res: Vec<HttpHeader>)
    ensures
        headers_view(res@) == headers_view(headers@),
{
    let mut res: Vec<HttpHeader> = Vec::new();
    let mut i: usize = 0;
    while i < headers.len()
        invariant
            i <= headers.len(),
            res.len() == i,
            forall|j: int| 0 <= j < i ==> res[j]@ == headers[j]@,
        decreases headers.len() - i,
    {
        res.push(headers[i].clone());
        i += 1;
    }
    assert(headers_view(res@) =~= headers_view(headers@));
    res
}

/// A copy of a byte string.
pub fn clone_bytes(bytes: &Vec<u8>) -> (res: Vec<u8>)
    ensures
        res@ == bytes@,
{
    let mut res: Vec<u8> = Vec::new();
    let mut i: usize = 0;
    while i < bytes.len()
        invariant
            i <= bytes.len(),
            res@ == bytes@.subrange(0, i as int),
        decreases bytes.len() - i,
    {
        res.push(bytes[i]);
        assert(bytes@.subrange(0, i + 1) =~= bytes@.subrange(0, i as int).push(bytes[i as int]));
        i += 1;
    }
    assert(bytes@.subrange(0, bytes.len() as int) =~= bytes@);
    res
}

#[derive(Debug, PartialEq, Eq)]
pub struct HttpRequest {
    pub url: String,
    pub method: HttpMethod,
    pub headers: Vec<HttpHeader>,
    pub body: Option<Vec<u8>>,
}

pub struct HttpRequestView {
    pub url: Seq<char>,
    pub method: HttpMethod,
    pub headers: Seq<HttpHeaderView>,
    pub body: Option<Seq<u8>>,
}

impl View for HttpRequest {
    type V = HttpRequestView;

    open spec fn view(&self) -> HttpRequestView {
        HttpRequestView {
            url: self.url@,
            method: self.method,
            headers: headers_view(self.headers@),
            body: body_view(self.body),
        }
    }
}

impl HttpRequest {
    pub fn new(
        url: &str,
        method: HttpMethod,
        headers: Vec<HttpHeader>,
        body: Option<Vec<u8>>,
    ) -> (req: Self)
        ensures
            req.url@ == url@,
            req.method == method,
            req.headers == headers,
            req.body == body,
    {
        HttpRequest { url: url.to_owned(), method, headers, body }
    }
}

impl Clone for HttpRequest {
    fn clone(&self) -> (res: Self)
        ensures
            res@ == self@,
    {
        let body = match &self.body {
            Some(b) => Some(clone_bytes(b)),
            None => None,
        };
        HttpRequest {
            url: self.url.clone(),
            method: self.method,
            headers: clone_headers(&self.headers),
            body,
        }
    }
}

#[derive(Debug, PartialEq, Eq)]
pub struct HttpResponse {
    pub status: u64,
    pub headers: Vec<HttpHeader>,
    pub body: Vec<u8>,
}

pub struct HttpResponseView {
    pub status: u64,
    pub headers: Seq<HttpHeaderView>,
    pub body: Seq<u8>,
}

impl View for HttpResponse {
    type V = HttpResponseView;

    open spec fn view(&self) -> HttpResponseView {
        HttpResponseView {
            status: self.status,
            headers: headers_view(self.headers@),
            body: self.body@,
        }
    }
}

impl Clone for HttpResponse {
    fn clone(&self) -> (res: Self)
        ensures
            res@ == self@,
    {
        HttpResponse {
            status: self.status,
            headers: clone_headers(&self.headers),
            body: clone_bytes(&self.body),
        }
    }
}

/// Why a connection has no response.
#[derive(Debug, PartialEq, Eq)]
pub enum HttpFailureReason {
    /// The deadline passed before any response arrived.
    RequestTimeout,
    /// The proxy reported that it could not perform the request.
    ProxyError(String),
    /// No connection with the given id is held by any connected proxy.
    ConnectionIdNotFound,
    /// The connection is still waiting for its response.
    NotYetReceived,
}

pub enum HttpFailureReasonView {
    RequestTimeout,
    ProxyError(Seq<char>),
    ConnectionIdNotFound,
    NotYetReceived,
}

impl View for HttpFailureReason {
    type V = HttpFailureReasonView;

    open spec fn view(&self) -> HttpFailureReasonView {
        match self {
            HttpFailureReason::RequestTimeout => HttpFailureReasonView::RequestTimeout,
            HttpFailureReason::ProxyError(message) => HttpFailureReasonView::ProxyError(message@),
            HttpFailureReason::ConnectionIdNotFound => HttpFailureReasonView::ConnectionIdNotFound,
            HttpFailureReason::NotYetReceived => HttpFailureReasonView::NotYetReceived,
        }
    }
}

impl Clone for HttpFailureReason {
    fn clone(&self) -> (res: Self)
        ensures
            res@ == self@,
    {
        match self {
            HttpFailureReason::RequestTimeout => HttpFailureReason::RequestTimeout,
            HttpFailureReason::ProxyError(message) => HttpFailureReason::ProxyError(message.clone()),
            HttpFailureReason::ConnectionIdNotFound => HttpFailureReason::ConnectionIdNotFound,
            HttpFailureReason::NotYetReceived => HttpFailureReason::NotYetReceived,
        }
    }
}

/// The outcome that a proxy reports for a connection.
#[derive(Debug, PartialEq, Eq)]
pub enum HttpResult {
    Success(HttpResponse),
    Failure(HttpFailureReason),
}

pub enum HttpResultView {
    Success(HttpResponseView),
    Failure(HttpFailureReasonView),
}

impl View for HttpResult {
    type V = HttpResultView;

    open spec fn view(&self) -> HttpResultView {
        match self {
            HttpResult::Success(response) => HttpResultView::Success(response@),
            HttpResult::Failure(reason) => HttpResultView::Failure(reason@),
        }
    }
}

/// What the library answers to a message or a request that it does not carry out.
#[derive(Debug, PartialEq, Eq)]
pub enum HttpOverWsError {
    /// The payload is no message of this protocol; the text says where
    /// decoding stopped. The caller should treat the payload as its own.
    NotHttpOverWsType(String),
    /// The payload is a message of this protocol that a proxy may not send.
    InvalidHttpMessage,
    /// The proxy is not connected.
    ProxyNotFound,
    /// No connection has the id.
    ConnectionNotFound,
    /// A request was issued while no proxy was connected.
    NoProxiesConnected,
    /// A request was issued after the last connection id had been
    /// allocated.
    NoConnectionIdLeft,
    /// The connection is held by another proxy.
    ConnectionNotAssignedToProxy,
}

pub enum HttpOverWsErrorView {
    NotHttpOverWsType(Seq<char>),
    InvalidHttpMessage,
    ProxyNotFound,
    ConnectionNotFound,
    NoProxiesConnected,
    NoConnectionIdLeft,
    ConnectionNotAssignedToProxy,
}

impl View for HttpOverWsError {
    type V = HttpOverWsErrorView;

    open spec fn view(&self) -> HttpOverWsErrorView {
        match self {
            HttpOverWsError::NotHttpOverWsType(text) => HttpOverWsErrorView::NotHttpOverWsType(
                text@,
            ),
            HttpOverWsError::InvalidHttpMessage => HttpOverWsErrorView::InvalidHttpMessage,
            HttpOverWsError::ProxyNotFound => HttpOverWsErrorView::ProxyNotFound,
            HttpOverWsError::ConnectionNotFound => HttpOverWsErrorView::ConnectionNotFound,
            HttpOverWsError::NoProxiesConnected => HttpOverWsErrorView::NoProxiesConnected,
            HttpOverWsError::NoConnectionIdLeft => HttpOverWsErrorView::NoConnectionIdLeft,
            HttpOverWsError::ConnectionNotAssignedToProxy => {
                HttpOverWsErrorView::ConnectionNotAssignedToProxy
            },
        }
    }
}

} // verus!
