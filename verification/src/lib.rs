//! HTTP requests tunnelled over a WebSocket link to remote proxies: the wire
//! messages, the life of one connection, the registry of connected proxies
//! and the dispatch of incoming messages. Around that core: the proxy
//! canister that takes requests from other canisters, and a client of the
//! Flux API that sends its requests through the tunnel.

pub mod client_proxy;
pub mod connection;
pub mod decimal;
pub mod ecdsa_api;
pub mod flux;
pub mod flux_api;
pub mod flux_types;
pub mod handlers;
pub mod laws;
pub mod logger;
pub mod message;
pub mod principal;
pub mod proxy_canister;
pub mod proxy_canister_types;
pub mod state;
pub mod types;
pub mod utils;
pub mod wire;

pub use client_proxy::ClientProxy;
pub use connection::{HttpConnection, HttpConnectionEffects, HttpConnectionState};
pub use handlers::{
    execute_http_request, get_http_connection, get_http_response, handle_http_over_ws_message,
    try_disconnect_http_proxy, try_handle_http_over_ws_message, ExecuteHttpRequestResult,
    HandledHttpOverWsMessage, HttpCallbackCall, OutgoingHttpRequest,
};
pub use message::HttpOverWsMessage;
pub use principal::Principal;
pub use state::{http_connection_timeout, State};
pub use types::{
    GetHttpResponseResult, HttpCallback, HttpConnectionId, HttpFailureReason, HttpHeader,
    HttpMethod, HttpOverWsError, HttpRequest, HttpRequestId, HttpRequestTimeoutMs, HttpResponse,
    HttpResult,
};
