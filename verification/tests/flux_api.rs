use http_over_ws::ecdsa_api::{set_canister_ecdsa_public_key, EcdsaState};
use http_over_ws::flux::FluxNetwork;
use http_over_ws::flux_api::authentication::{
    get_zelidauth, get_zelidauth_or_trap, is_logged_in, login, logout, logout_callback,
    set_zelidauth, verify_login,
};
use http_over_ws::flux_api::balance::{balance_callback, fetch_balance};
use http_over_ws::flux_api::deployment::{
    app_specification, appregister_to_sign, calculate_app_price, fetch_deployment_information,
    register_app, registration_timestamp, tmp_deployment_info, DeploymentInfo,
    APPREGISTER_MESSAGE_VERSION, APP_SPECIFICATION_VERSION,
};
use http_over_ws::flux_types::models::{Appspecification, GetAppPriceRequestComposeInner};
use http_over_ws::flux_api::{
    content_type_text_plain, flux_api_endpoint, get_balance, http_request_endpoint_args,
    second_part_of, successful_response, FluxState, DEFAULT_HTTP_REQUEST_TIMEOUT_MS,
};
use http_over_ws::proxy_canister_types::HttpRequestEndpointArgs;
use http_over_ws::{HttpFailureReason, HttpHeader, HttpMethod, HttpRequest, HttpResponse, HttpResult};

const PUBLIC_KEY: [u8; 33] = [
    0x02, 0x79, 0xbe, 0x66, 0x7e, 0xf9, 0xdc, 0xbb, 0xac, 0x55, 0xa0, 0x62, 0x95, 0xce, 0x87,
    0x0b, 0x07, 0x02, 0x9b, 0xfc, 0xdb, 0x2d, 0xce, 0x28, 0xd9, 0x59, 0xf2, 0x81, 0x5b, 0x16,
    0xf8, 0x17, 0x98,
];

fn text_plain() -> HttpHeader {
    HttpHeader {
        name: String::from("Content-Type"),
        value: String::from("text/plain"),
    }
}

fn zelidauth(value: &str) -> HttpHeader {
    HttpHeader {
        name: String::from("zelidauth"),
        value: String::from(value),
    }
}

fn response(status: u64) -> HttpResponse {
    HttpResponse {
        status,
        headers: vec![],
        body: vec![],
    }
}

#[test]
fn a_new_session_knows_nothing() {
    let state = FluxState::default();
    assert!(!is_logged_in(&state));
    assert_eq!(get_zelidauth(&state), None);
    assert_eq!(get_balance(&state), None);
    assert!(!state.check_balance());
}

#[test]
fn the_authentication_header_is_set_and_reset() {
    let mut state = FluxState::default();
    set_zelidauth(&mut state, None);
    assert!(!is_logged_in(&state));

    set_zelidauth(&mut state, Some(String::from("abc")));
    assert!(is_logged_in(&state));
    assert_eq!(get_zelidauth(&state), Some(zelidauth("abc")));
    assert_eq!(get_zelidauth_or_trap(&state), zelidauth("abc"));
    assert_eq!(state.get_zelid_auth_header(), Some(zelidauth("abc")));

    // no value leaves the header as it is
    set_zelidauth(&mut state, None);
    assert_eq!(get_zelidauth(&state), Some(zelidauth("abc")));

    state.set_auth_header(String::from("def"));
    assert_eq!(get_zelidauth(&state), Some(zelidauth("def")));

    state.reset_auth_header();
    assert!(!is_logged_in(&state));
}

#[test]
fn the_balance_is_kept() {
    let mut state = FluxState::default();
    state.set_balance(0);
    assert_eq!(get_balance(&state), Some(0));
    assert!(!state.check_balance());
    state.set_balance(-5);
    assert!(!state.check_balance());
    state.set_balance_from_getaddressbalance_response(Some(150_000_000));
    assert_eq!(state.get_balance(), Some(150_000_000));
    assert!(state.check_balance());
    balance_callback(&mut state, Some(7));
    assert_eq!(get_balance(&state), Some(7));
    assert!(!is_logged_in(&state));
}

#[test]
fn the_second_part_lies_between_question_marks() {
    assert_eq!(second_part_of(""), None);
    assert_eq!(second_part_of("http://dummy.com/"), None);
    assert_eq!(second_part_of("a?"), Some(String::new()));
    assert_eq!(second_part_of("?b"), Some(String::from("b")));
    assert_eq!(second_part_of("a?b"), Some(String::from("b")));
    assert_eq!(second_part_of("a?b?c"), Some(String::from("b")));
    assert_eq!(second_part_of("a??c"), Some(String::new()));
    assert_eq!(
        second_part_of("\u{e9}?\u{4e2d}\u{6587}?x"),
        Some(String::from("\u{4e2d}\u{6587}"))
    );
}

#[test]
fn a_verified_login_sets_the_header() {
    let mut state = FluxState::default();
    state.set_balance(3);
    let done = state.set_auth_header_from_verifylogin_response_data(
        String::from("1BgGZ9tcN4rm9KBzDn7KprQz87SZ26SAMH"),
        String::from("phrase with spaces"),
        String::from("a+b/c="),
    );
    assert!(done);
    assert_eq!(
        get_zelidauth(&state),
        Some(zelidauth(
            "zelid=1BgGZ9tcN4rm9KBzDn7KprQz87SZ26SAMH&signature=a%2Bb%2Fc%3D&loginPhrase=phrase+with+spaces"
        ))
    );
    assert_eq!(get_balance(&state), Some(3));
}

#[test]
fn the_header_is_set_from_the_query_of_a_url() {
    let mut state = FluxState::default();
    state.set_auth_header_from_url_text("http://dummy.com/?zelid=a&signature=b");
    assert_eq!(
        get_zelidauth(&state),
        Some(zelidauth("zelid=a&signature=b"))
    );
}

#[test]
fn endpoints_lie_under_the_address_of_the_api() {
    assert_eq!(
        flux_api_endpoint("/id/loginphrase"),
        Some(String::from("https://api.runonflux.io/id/loginphrase"))
    );
    assert_eq!(
        flux_api_endpoint("apps/x"),
        Some(String::from("https://api.runonflux.io/apps/x"))
    );
    assert_eq!(content_type_text_plain(), text_plain());
    assert_eq!(DEFAULT_HTTP_REQUEST_TIMEOUT_MS, 15_000);
}

#[test]
fn arguments_are_put_together_as_given() {
    assert_eq!(
        http_request_endpoint_args(
            String::from("https://x"),
            HttpMethod::PUT,
            vec![text_plain()],
            Some(vec![1]),
            Some(String::from("cb")),
            Some(5),
        ),
        HttpRequestEndpointArgs {
            request: HttpRequest {
                url: String::from("https://x"),
                method: HttpMethod::PUT,
                headers: vec![text_plain()],
                body: Some(vec![1]),
            },
            timeout_ms: Some(5),
            callback_method_name: Some(String::from("cb")),
        }
    );
}

#[test]
fn the_login_asks_for_a_phrase() {
    assert_eq!(
        login(),
        Some(HttpRequestEndpointArgs {
            request: HttpRequest {
                url: String::from("https://api.runonflux.io/id/loginphrase"),
                method: HttpMethod::GET,
                headers: vec![text_plain()],
                body: None,
            },
            timeout_ms: Some(30_000),
            callback_method_name: Some(String::from("login_phrase_callback")),
        })
    );
}

#[test]
fn the_signed_phrase_is_handed_in() {
    assert_eq!(
        verify_login(vec![1, 2, 3]),
        Some(HttpRequestEndpointArgs {
            request: HttpRequest {
                url: String::from("https://api.runonflux.io/id/verifylogin"),
                method: HttpMethod::POST,
                headers: vec![text_plain()],
                body: Some(vec![1, 2, 3]),
            },
            timeout_ms: Some(15_000),
            callback_method_name: Some(String::from("verify_login_callback")),
        })
    );
}

#[test]
fn the_logout_carries_the_authentication() {
    let mut state = FluxState::default();
    set_zelidauth(&mut state, Some(String::from("abc")));
    assert_eq!(
        logout(&state),
        Some(HttpRequestEndpointArgs {
            request: HttpRequest {
                url: String::from("https://api.runonflux.io/id/logoutcurrentsession"),
                method: HttpMethod::GET,
                headers: vec![zelidauth("abc")],
                body: None,
            },
            timeout_ms: Some(15_000),
            callback_method_name: Some(String::from("logout_callback")),
        })
    );
}

#[test]
fn only_an_answer_with_the_status_200_logs_out() {
    let mut state = FluxState::default();
    set_zelidauth(&mut state, Some(String::from("abc")));

    logout_callback(&mut state, HttpResult::Success(response(500)));
    assert!(is_logged_in(&state));
    logout_callback(
        &mut state,
        HttpResult::Failure(HttpFailureReason::RequestTimeout),
    );
    assert!(is_logged_in(&state));
    logout_callback(&mut state, HttpResult::Success(response(200)));
    assert!(!is_logged_in(&state));
}

#[test]
fn a_handler_goes_on_with_an_answer_of_status_200() {
    assert_eq!(
        successful_response(HttpResult::Success(response(200))),
        Some(response(200))
    );
    assert_eq!(successful_response(HttpResult::Success(response(201))), None);
    assert_eq!(successful_response(HttpResult::Success(response(0))), None);
    assert_eq!(
        successful_response(HttpResult::Failure(HttpFailureReason::NotYetReceived)),
        None
    );
}

#[test]
fn the_balance_is_asked_for_the_address_of_the_key() {
    let mut ecdsa = EcdsaState::new();
    set_canister_ecdsa_public_key(&mut ecdsa, PUBLIC_KEY.to_vec());
    assert_eq!(
        fetch_balance(&ecdsa, FluxNetwork::Mainnet),
        Some(HttpRequestEndpointArgs {
            request: HttpRequest {
                url: String::from(
                    "https://api.runonflux.io/explorer/balance?address=t1UYsZVJkLPeMjxEtACvSxfWuNmddpWfxzs"
                ),
                method: HttpMethod::GET,
                headers: vec![],
                body: None,
            },
            timeout_ms: Some(15_000),
            callback_method_name: Some(String::from("balance_callback")),
        })
    );
}

#[test]
fn the_price_is_asked_with_the_specification() {
    assert_eq!(
        calculate_app_price(vec![b'{', b'}']),
        Some(HttpRequestEndpointArgs {
            request: HttpRequest {
                url: String::from("https://api.runonflux.io/apps/calculateprice"),
                method: HttpMethod::POST,
                headers: vec![text_plain()],
                body: Some(vec![b'{', b'}']),
            },
            timeout_ms: Some(15_000),
            callback_method_name: Some(String::from("calculate_price_callback")),
        })
    );
}

#[test]
fn the_registration_carries_the_authentication() {
    let mut state = FluxState::default();
    set_zelidauth(&mut state, Some(String::from("abc")));
    assert_eq!(
        register_app(&state, vec![b'{', b'}']),
        Some(HttpRequestEndpointArgs {
            request: HttpRequest {
                url: String::from("https://api.runonflux.io/apps/appregister"),
                method: HttpMethod::POST,
                headers: vec![text_plain(), zelidauth("abc")],
                body: Some(vec![b'{', b'}']),
            },
            timeout_ms: Some(30_000),
            callback_method_name: Some(String::from("app_register_callback")),
        })
    );
}

#[test]
fn the_deployment_information_is_asked_for() {
    assert_eq!(
        fetch_deployment_information(),
        Some(HttpRequestEndpointArgs {
            request: HttpRequest {
                url: String::from("https://api.runonflux.io/apps/deploymentinformation"),
                method: HttpMethod::GET,
                headers: vec![text_plain()],
                body: None,
            },
            timeout_ms: Some(15_000),
            callback_method_name: Some(String::from("deployment_information_callback")),
        })
    );
}

#[test]
fn the_deployment_that_is_asked_for() {
    let info = tmp_deployment_info();
    assert_eq!(info.instances, 3);
    assert_eq!(info.expires_after_blocks, 5000);
    assert!(!info.static_ip);
    let compose = info.compose;
    assert_eq!(compose.name, Some(String::from("ichttprequestexecutor")));
    assert_eq!(
        compose.description,
        Some(String::from("IC HTTP Request Executor client"))
    );
    assert_eq!(
        compose.repotag,
        Some(String::from("omniadevs/ic-http-request-executor:v0.0.5"))
    );
    assert_eq!(compose.ports, Some(vec![80]));
    assert_eq!(compose.domains, Some(vec![String::new()]));
    assert_eq!(
        compose.environment_parameters,
        Some(vec![
            String::from("IC_NETWORK_URL=https://icp0.io"),
            String::from("IC_WS_GATEWAY_URL=wss://gateway.icws.io"),
            String::from("CANISTER_ID_IC_SIDE_SERVICES_BACKEND=5fhww-dyaaa-aaaao-a26ia-cai"),
        ])
    );
    assert_eq!(compose.commands, Some(vec![]));
    assert_eq!(compose.container_ports, Some(vec![80]));
    assert_eq!(compose.container_data, Some(String::from("/data")));
    assert_eq!(compose.cpu, Some(1));
    assert_eq!(compose.ram, Some(100));
    assert_eq!(compose.hdd, Some(1));
    assert_eq!(compose.tiered, Some(false));
    assert_eq!(compose.secrets, Some(String::new()));
    assert_eq!(compose.repoauth, Some(String::new()));
}

#[test]
fn a_specification_is_made_of_one_component() {
    let mut compose = GetAppPriceRequestComposeInner::new();
    compose.name = Some(String::from("app"));
    compose.ram = Some(100);
    let info = DeploymentInfo {
        compose: compose.clone(),
        instances: 3,
        expires_after_blocks: 5000,
        static_ip: true,
    };
    assert_eq!(APP_SPECIFICATION_VERSION, 7);
    assert_eq!(
        app_specification(info, String::from("1Owner")),
        Appspecification {
            version: Some(7),
            name: Some(String::from("app")),
            description: None,
            owner: Some(String::from("1Owner")),
            compose: Some(vec![compose]),
            instances: Some(3),
            contacts: Some(vec![]),
            geolocation: Some(vec![]),
            expire: Some(5000),
            nodes: Some(vec![]),
            staticip: Some(true),
        }
    );
}

#[test]
fn a_registration_is_signed_with_its_type_version_and_time() {
    assert_eq!(APPREGISTER_MESSAGE_VERSION, 1);
    assert_eq!(
        appregister_to_sign("{\"version\":7}", 1_700_000_000_123),
        "fluxappregister1{\"version\":7}1700000000123"
    );
    assert_eq!(appregister_to_sign("", 0), "fluxappregister10");
    assert_eq!(appregister_to_sign("x", -5), "fluxappregister1x-5");
}

#[test]
fn the_time_of_a_registration_is_in_milliseconds() {
    assert_eq!(registration_timestamp(0), 0);
    assert_eq!(registration_timestamp(1_999_999), 1);
    assert_eq!(
        registration_timestamp(1_700_000_000_123_456_789),
        1_700_000_000_123
    );
    assert_eq!(registration_timestamp(u64::MAX), 18_446_744_073_709);
}
