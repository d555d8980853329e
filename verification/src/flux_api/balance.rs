//! Asking the Flux API for the balance of the host's address.

use vstd::prelude::*;
use crate::ecdsa_api::{get_p2pkh_address, EcdsaState};
use crate::flux::{base58_text, p2pkh_address_bytes, FluxNetwork, P2PKHAddress};
use crate::flux_api::{
    flux_api_endpoint,
    flux_api_url,
    http_request_endpoint_args,
    params_view,
    url_with_params,
    url_with_params_text,
    DEFAULT_HTTP_REQUEST_TIMEOUT_MS,
};
use crate::proxy_canister_types::{HttpRequestEndpointArgs, HttpRequestEndpointArgsView};
use crate::types::{HttpHeader, HttpHeaderView, HttpMethod, HttpRequestView};

verus! {

/// The request that asks for the balance of `address`.
pub open spec fn fetch_balance_request(address: Seq<char>) -> Option<HttpRequestEndpointArgsView> {
    match flux_api_url("/explorer/balance"@) {
        Some(endpoint) => match url_with_params_text(endpoint, seq![("address"@, address)]) {
            Some(url) => Some(
                HttpRequestEndpointArgsView {
                    request: HttpRequestView {
                        url,
                        method: HttpMethod::GET,
                        headers: Seq::empty(),
                        body: None,
                    },
                    timeout_ms: Some(DEFAULT_HTTP_REQUEST_TIMEOUT_MS),
                    callback_method_name: Some("balance_callback"@),
                },
            ),
            None => None,
        },
        None => None,
    }
}

/// The request that asks for the balance of the address that funds are
/// sent to and from on `network`. The public key must have been set.
pub fn fetch_balance(ecdsa_state: &EcdsaState, network: FluxNetwork) -> (args: Option<
    HttpRequestEndpointArgs,
>)
    requires
        ecdsa_state@.public_key is Some,
    ensures
        match fetch_balance_request(
            base58_text(
                p2pkh_address_bytes(network, P2PKHAddress::ZCash, ecdsa_state@.public_key->0),
            ),
        ) {
            Some(a) => args is Some && args->0@ == a,
            None => args is None,
        },
{
    let address = get_p2pkh_address(ecdsa_state, network, P2PKHAddress::ZCash);
    let endpoint = match flux_api_endpoint("/explorer/balance") {
        Some(url) => url,
        None => {
            return None;
        },
    };
    let mut params: Vec<(String, String)> = Vec::new();
    params.push(("address".to_owned(), address));
    assert(params_view(params@) =~= seq![("address"@, address@)]);
    let balance_url = match url_with_params(endpoint.as_str(), &params) {
        Some(url) => url,
        None => {
            return None;
        },
    };
    let headers: Vec<HttpHeader> = Vec::new();
    let args = http_request_endpoint_args(
        balance_url,
        HttpMethod::GET,
        headers,
        None,
        Some("balance_callback".to_owned()),
        Some(DEFAULT_HTTP_REQUEST_TIMEOUT_MS),
    );
    assert(args@.request.headers =~= Seq::<HttpHeaderView>::empty());
    Some(args)
}

/// The API has answered the request for the balance with `data`: the
/// balance is kept. The answer must hold one.
pub fn balance_callback(state: &mut crate::flux_api::FluxState, data: Option<i32>)
    requires
        data is Some,
    ensures
        final(state)@.flux_balance == data,
        final(state)@.zelid_auth_header == old(state)@.zelid_auth_header,
{
    state.set_balance_from_getaddressbalance_response(data);
}

} // verus!
