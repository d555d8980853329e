//! Logging in to the Flux API and out of it.

use vstd::prelude::*;
use crate::flux_api::{
    answered,
    content_type_text_plain,
    content_type_text_plain_header,
    flux_api_endpoint,
    flux_api_url,
    http_request_endpoint_args,
    successful_response,
    zelidauth_header,
    FluxState,
    DEFAULT_HTTP_REQUEST_TIMEOUT_MS,
};
use crate::proxy_canister_types::{HttpRequestEndpointArgs, HttpRequestEndpointArgsView};
use crate::types::{HttpHeader, HttpMethod, HttpRequestView, HttpResult};

verus! {

/// The request that asks the API for a phrase to sign. The deadline is
/// twice the usual one, since the phrase is signed before the login goes
/// on.
pub open spec fn login_request() -> Option<HttpRequestEndpointArgsView> {
    match flux_api_url("/id/loginphrase"@) {
        Some(url) => Some(
            HttpRequestEndpointArgsView {
                request: HttpRequestView {
                    url,
                    method: HttpMethod::GET,
                    headers: seq![content_type_text_plain_header()],
                    body: None,
                },
                timeout_ms: Some((2 * DEFAULT_HTTP_REQUEST_TIMEOUT_MS) as u64),
                callback_method_name: Some("login_phrase_callback"@),
            },
        ),
        None => None,
    }
}

pub fn login() -> (args: Option<HttpRequestEndpointArgs>)
    ensures
        match login_request() {
            Some(a) => args is Some && args->0@ == a,
            None => args is None,
        },
{
    let loginphrase_url = match flux_api_endpoint("/id/loginphrase") {
        Some(url) => url,
        None => {
            return None;
        },
    };
    let mut headers: Vec<HttpHeader> = Vec::new();
    headers.push(content_type_text_plain());
    let args = http_request_endpoint_args(
        loginphrase_url,
        HttpMethod::GET,
        headers,
        None,
        Some("login_phrase_callback".to_owned()),
        Some(2 * DEFAULT_HTTP_REQUEST_TIMEOUT_MS),
    );
    assert(args@.request.headers =~= seq![content_type_text_plain_header()]);
    Some(args)
}

/// The request that hands the signed phrase in; `body` is the login,
/// serialized.
pub open spec fn verify_login_request(body: Seq<u8>) -> Option<HttpRequestEndpointArgsView> {
    match flux_api_url("/id/verifylogin"@) {
        Some(url) => Some(
            HttpRequestEndpointArgsView {
                request: HttpRequestView {
                    url,
                    method: HttpMethod::POST,
                    headers: seq![content_type_text_plain_header()],
                    body: Some(body),
                },
                timeout_ms: Some(DEFAULT_HTTP_REQUEST_TIMEOUT_MS),
                callback_method_name: Some("verify_login_callback"@),
            },
        ),
        None => None,
    }
}

pub fn verify_login(body: Vec<u8>) -> (args: Option<HttpRequestEndpointArgs>)
    ensures
        match verify_login_request(body@) {
            Some(a) => args is Some && args->0@ == a,
            None => args is None,
        },
{
    let verifylogin_url = match flux_api_endpoint("/id/verifylogin") {
        Some(url) => url,
        None => {
            return None;
        },
    };
    let mut headers: Vec<HttpHeader> = Vec::new();
    headers.push(content_type_text_plain());
    let args = http_request_endpoint_args(
        verifylogin_url,
        HttpMethod::POST,
        headers,
        Some(body),
        Some("verify_login_callback".to_owned()),
        Some(DEFAULT_HTTP_REQUEST_TIMEOUT_MS),
    );
    assert(args@.request.headers =~= seq![content_type_text_plain_header()]);
    Some(args)
}

/// The request that ends the session that `zelidauth` authenticates.
pub open spec fn logout_request(zelidauth: crate::types::HttpHeaderView) -> Option<
    HttpRequestEndpointArgsView,
> {
    match flux_api_url("/id/logoutcurrentsession"@) {
        Some(url) => Some(
            HttpRequestEndpointArgsView {
                request: HttpRequestView {
                    url,
                    method: HttpMethod::GET,
                    headers: seq![zelidauth],
                    body: None,
                },
                timeout_ms: Some(DEFAULT_HTTP_REQUEST_TIMEOUT_MS),
                callback_method_name: Some("logout_callback"@),
            },
        ),
        None => None,
    }
}

/// The request that logs out. The host must be logged in.
pub fn logout(state: &FluxState) -> (args: Option<HttpRequestEndpointArgs>)
    requires
        state@.zelid_auth_header is Some,
    ensures
        match logout_request(state@.zelid_auth_header->0) {
            Some(a) => args is Some && args->0@ == a,
            None => args is None,
        },
{
    let zelidauth = get_zelidauth_or_trap(state);
    let logout_url = match flux_api_endpoint("/id/logoutcurrentsession") {
        Some(url) => url,
        None => {
            return None;
        },
    };
    let mut headers: Vec<HttpHeader> = Vec::new();
    headers.push(zelidauth);
    let args = http_request_endpoint_args(
        logout_url,
        HttpMethod::GET,
        headers,
        None,
        Some("logout_callback".to_owned()),
        Some(DEFAULT_HTTP_REQUEST_TIMEOUT_MS),
    );
    assert(args@.request.headers =~= seq![state@.zelid_auth_header->0]);
    Some(args)
}

/// The API has answered the request to log out: if it has carried the
/// request out, the host is logged out.
pub fn logout_callback(state: &mut FluxState, res: HttpResult)
    ensures
        answered(res@) is Some ==> final(state)@.zelid_auth_header is None,
        answered(res@) is None ==> final(state)@.zelid_auth_header
            == old(state)@.zelid_auth_header,
        final(state)@.flux_balance == old(state)@.flux_balance,
{
    match successful_response(res) {
        Some(_) => {
            state.reset_auth_header();
        },
        None => {},
    }
}

pub fn get_zelidauth(state: &FluxState) -> (header: Option<HttpHeader>)
    ensures
        match state@.zelid_auth_header {
            Some(h) => header is Some && header->0@ == h,
            None => header is None,
        },
{
    state.get_zelid_auth_header()
}

/// The authentication header. It must have been set.
pub fn get_zelidauth_or_trap(state: &FluxState) -> (header: HttpHeader)
    requires
        state@.zelid_auth_header is Some,
    ensures
        Some(header@) == state@.zelid_auth_header,
{
    state.get_zelid_auth_header_or_trap()
}

/// Sets the authentication header to `zelidauth`, if there is one.
pub fn set_zelidauth(state: &mut FluxState, zelidauth: Option<String>)
    ensures
        zelidauth matches Some(value) ==> final(state)@.zelid_auth_header == Some(
            zelidauth_header(value@),
        ),
        zelidauth is None ==> final(state)@.zelid_auth_header == old(state)@.zelid_auth_header,
        final(state)@.flux_balance == old(state)@.flux_balance,
{
    if let Some(zelidauth) = zelidauth {
        state.set_auth_header(zelidauth);
    }
}

pub fn is_logged_in(state: &FluxState) -> (logged_in: bool)
    ensures
        logged_in == (state@.zelid_auth_header is Some),
{
    state.get_zelid_auth_header().is_some()
}

} // verus!
