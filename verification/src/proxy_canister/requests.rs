//! The check that a request passes before it is issued.

use vstd::prelude::*;
use crate::proxy_canister::constants::{
    MAX_HTTP_HEADERS_COUNT,
    MAX_HTTP_REQUEST_TIMEOUT_MS,
    MIN_HTTP_REQUEST_TIMEOUT_MS,
};
use crate::proxy_canister_types::{
    HttpRequestEndpointArgs,
    HttpRequestEndpointArgsView,
    InvalidRequest,
    InvalidRequestView,
};
use crate::types::{callback_view, HttpRequestTimeoutMs};

verus! {

/// Why a text is no URL; nothing if it is one.
pub uninterp spec fn url_parse_failure(url: Seq<char>) -> Option<Seq<char>>;

/// `Url::parse` of the crate url: nothing if `url` parses, else the parse
/// error, rendered as text.
#[verifier::external_body]
fn url_parse_error(url: &str) -> (failure: Option<String>)
    ensures
        callback_view(failure) == url_parse_failure(url@),
{
    url::Url::parse(url).err().map(|e| e.to_string())
}

/// Whether a request with the given properties may be issued: its URL has
/// to parse, it may have no more headers than the limit, and its deadline,
/// if it has one, has to lie within the limits. The first of these that
/// does not hold is reported.
pub open spec fn validated(
    url_failure: Option<Seq<char>>,
    headers_count: nat,
    timeout_ms: Option<HttpRequestTimeoutMs>,
) -> Result<(), InvalidRequestView> {
    if url_failure is Some {
        Err(InvalidRequestView::InvalidUrl(url_failure->0))
    } else if headers_count > MAX_HTTP_HEADERS_COUNT {
        Err(InvalidRequestView::TooManyHeaders)
    } else if timeout_ms is Some && (timeout_ms->0 > MAX_HTTP_REQUEST_TIMEOUT_MS || timeout_ms->0
        < MIN_HTTP_REQUEST_TIMEOUT_MS) {
        Err(InvalidRequestView::InvalidTimeout)
    } else {
        Ok(())
    }
}

/// Checks a request whose URL has been parsed already.
pub fn validate_parsed_request(
    url_failure: Option<String>,
    headers_count: usize,
    timeout_ms: Option<HttpRequestTimeoutMs>,
) -> (checked: Result<(), InvalidRequest>)
    ensures
        match validated(callback_view(url_failure), headers_count as nat, timeout_ms) {
            Ok(_) => checked is Ok,
            Err(e) => checked is Err && checked->Err_0@ == e,
        },
{
    if let Some(text) = url_failure {
        return Err(InvalidRequest::InvalidUrl(text));
    }
    if headers_count > MAX_HTTP_HEADERS_COUNT {
        return Err(InvalidRequest::TooManyHeaders);
    }
    if let Some(timeout_ms) = timeout_ms {
        if timeout_ms > MAX_HTTP_REQUEST_TIMEOUT_MS || timeout_ms < MIN_HTTP_REQUEST_TIMEOUT_MS {
            return Err(InvalidRequest::InvalidTimeout);
        }
    }
    Ok(())
}

/// Whether the request that `args` describes may be issued.
pub open spec fn checked_request(args: HttpRequestEndpointArgsView) -> Result<
    (),
    InvalidRequestView,
> {
    validated(url_parse_failure(args.request.url), args.request.headers.len(), args.timeout_ms)
}

/// Checks a request that a canister has handed in.
pub fn validate_incoming_request(args: &HttpRequestEndpointArgs) -> (checked: Result<
    (),
    InvalidRequest,
>)
    ensures
        match checked_request(args@) {
            Ok(_) => checked is Ok,
            Err(e) => checked is Err && checked->Err_0@ == e,
        },
{
    let url_failure = url_parse_error(args.request.url.as_str());
    validate_parsed_request(url_failure, args.request.headers.len(), args.timeout_ms)
}

} // verus!
