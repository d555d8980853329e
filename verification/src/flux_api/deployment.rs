//! Deploying an application on Flux: asking for its price, registering it,
//! and asking where registrations are paid.

use vstd::prelude::*;
use vstd::string::StringExecFns;
use crate::decimal::{integer_text, integer_to_decimal};
use crate::flux_api::{
    content_type_text_plain,
    content_type_text_plain_header,
    flux_api_endpoint,
    flux_api_url,
    http_request_endpoint_args,
    FluxState,
    DEFAULT_HTTP_REQUEST_TIMEOUT_MS,
};
use crate::flux_types::models::{Appspecification, GetAppPriceRequestComposeInner, Status};
use crate::proxy_canister_types::{HttpRequestEndpointArgs, HttpRequestEndpointArgsView};
use crate::types::{HttpHeader, HttpHeaderView, HttpMethod, HttpRequestView};

verus! {

pub type ComposeSpec = GetAppPriceRequestComposeInner;

pub struct DeploymentInfo {
    /// What the application is composed of, much like a compose file
    pub compose: ComposeSpec,
    /// On how many nodes the application should be deployed
    pub instances: i32,
    /// For how many blocks the application should be valid; 5000 blocks
    /// are about a week
    pub expires_after_blocks: i32,
    /// Whether the application should have a static IP address
    pub static_ip: bool,
}

#[derive(Clone, Debug, PartialEq)]
pub struct DeploymentInformationData {
    pub address: String,
}

#[derive(Clone, Debug, PartialEq)]
pub struct DeploymentInformationResponse {
    pub status: Option<Status>,
    pub data: Option<DeploymentInformationData>,
}

/// The version of the specifications that the host writes.
pub const APP_SPECIFICATION_VERSION: i32 = 7;

/// The type of the message that registers an application.
pub open spec fn appregister_message_type() -> Seq<char> {
    "fluxappregister"@
}

/// The version of the message that registers an application.
pub const APPREGISTER_MESSAGE_VERSION: i32 = 1;

/// A copy of an optional text.
fn clone_text(text: &Option<String>) -> (copy: Option<String>)
    ensures
        copy is Some == text is Some,
        copy matches Some(c) ==> c@ == text->0@,
{
    match text {
        Some(t) => Some(t.clone()),
        None => None,
    }
}

/// The specification of the application that `deployment_info` describes
/// and that `owner` owns: one component, under the component's name and
/// description, with no contacts and no restriction on where it runs.
pub fn app_specification(deployment_info: DeploymentInfo, owner: String) -> (specification:
    Appspecification)
    ensures
        specification.version == Some(APP_SPECIFICATION_VERSION),
        specification.name is Some == deployment_info.compose.name is Some,
        specification.name matches Some(n) ==> n@ == deployment_info.compose.name->0@,
        specification.description is Some == deployment_info.compose.description is Some,
        specification.description matches Some(d) ==> d@
            == deployment_info.compose.description->0@,
        specification.owner == Some(owner),
        specification.compose is Some,
        specification.compose->0@ == seq![deployment_info.compose],
        specification.instances == Some(deployment_info.instances),
        are_texts(specification.contacts, Seq::<Seq<char>>::empty()),
        are_texts(specification.geolocation, Seq::<Seq<char>>::empty()),
        specification.expire == Some(deployment_info.expires_after_blocks),
        are_texts(specification.nodes, Seq::<Seq<char>>::empty()),
        specification.staticip == Some(deployment_info.static_ip),
{
    let name = clone_text(&deployment_info.compose.name);
    let description = clone_text(&deployment_info.compose.description);
    let mut compose: Vec<ComposeSpec> = Vec::new();
    compose.push(deployment_info.compose);
    assert(compose@ =~= seq![deployment_info.compose]);
    Appspecification {
        version: Some(APP_SPECIFICATION_VERSION),
        name,
        description,
        owner: Some(owner),
        compose: Some(compose),
        instances: Some(deployment_info.instances),
        contacts: Some(Vec::new()),
        geolocation: Some(Vec::new()),
        expire: Some(deployment_info.expires_after_blocks),
        nodes: Some(Vec::new()),
        staticip: Some(deployment_info.static_ip),
    }
}

/// The time of a registration: the timestamp in milliseconds that the
/// timestamp `timestamp_ns` in nanoseconds comes to.
pub fn registration_timestamp(timestamp_ns: u64) -> (timestamp: i64)
    ensures
        timestamp == timestamp_ns / 1_000_000,
{
    (timestamp_ns / 1_000_000) as i64
}

/// What is signed to register an application: the type of the message,
/// its version, the specification as it is serialized, and the time, one
/// after another.
pub open spec fn appregister_signed_text(
    version: int,
    app_specification: Seq<char>,
    timestamp: int,
) -> Seq<char> {
    appregister_message_type() + integer_text(version) + app_specification + integer_text(
        timestamp,
    )
}

pub fn appregister_to_sign(app_specification: &str, timestamp: i64) -> (to_sign: String)
    ensures
        to_sign@ == appregister_signed_text(
            APPREGISTER_MESSAGE_VERSION as int,
            app_specification@,
            timestamp as int,
        ),
{
    let mut to_sign = "fluxappregister".to_owned();
    let version = integer_to_decimal(APPREGISTER_MESSAGE_VERSION as i64);
    to_sign.append(version.as_str());
    to_sign.append(app_specification);
    let time = integer_to_decimal(timestamp);
    to_sign.append(time.as_str());
    to_sign
}

/// A request with a plain-text body to the API's endpoint at `path`.
pub open spec fn post_request(
    path: Seq<char>,
    headers: Seq<HttpHeaderView>,
    body: Seq<u8>,
    callback_method_name: Seq<char>,
    timeout_ms: u64,
) -> Option<HttpRequestEndpointArgsView> {
    match flux_api_url(path) {
        Some(url) => Some(
            HttpRequestEndpointArgsView {
                request: HttpRequestView { url, method: HttpMethod::POST, headers, body: Some(body) },
                timeout_ms: Some(timeout_ms),
                callback_method_name: Some(callback_method_name),
            },
        ),
        None => None,
    }
}

/// The request that asks for the price of an application; `body` is the
/// application's specification, serialized.
pub fn calculate_app_price(body: Vec<u8>) -> (args: Option<HttpRequestEndpointArgs>)
    ensures
        match post_request(
            "/apps/calculateprice"@,
            seq![content_type_text_plain_header()],
            body@,
            "calculate_price_callback"@,
            DEFAULT_HTTP_REQUEST_TIMEOUT_MS,
        ) {
            Some(a) => args is Some && args->0@ == a,
            None => args is None,
        },
{
    let calculateprice_url = match flux_api_endpoint("/apps/calculateprice") {
        Some(url) => url,
        None => {
            return None;
        },
    };
    let mut headers: Vec<HttpHeader> = Vec::new();
    headers.push(content_type_text_plain());
    let args = http_request_endpoint_args(
        calculateprice_url,
        HttpMethod::POST,
        headers,
        Some(body),
        Some("calculate_price_callback".to_owned()),
        Some(DEFAULT_HTTP_REQUEST_TIMEOUT_MS),
    );
    assert(args@.request.headers =~= seq![content_type_text_plain_header()]);
    Some(args)
}

/// The request that registers an application; `body` is the signed
/// registration, serialized. The host must be logged in. The deadline is
/// twice the usual one.
pub fn register_app(state: &FluxState, body: Vec<u8>) -> (args: Option<HttpRequestEndpointArgs>)
    requires
        state@.zelid_auth_header is Some,
    ensures
        match post_request(
            "/apps/appregister"@,
            seq![content_type_text_plain_header(), state@.zelid_auth_header->0],
            body@,
            "app_register_callback"@,
            (2 * DEFAULT_HTTP_REQUEST_TIMEOUT_MS) as u64,
        ) {
            Some(a) => args is Some && args->0@ == a,
            None => args is None,
        },
{
    let zelidauth = state.get_zelid_auth_header_or_trap();
    let appregister_url = match flux_api_endpoint("/apps/appregister") {
        Some(url) => url,
        None => {
            return None;
        },
    };
    let mut headers: Vec<HttpHeader> = Vec::new();
    headers.push(content_type_text_plain());
    headers.push(zelidauth);
    let args = http_request_endpoint_args(
        appregister_url,
        HttpMethod::POST,
        headers,
        Some(body),
        Some("app_register_callback".to_owned()),
        Some(2 * DEFAULT_HTTP_REQUEST_TIMEOUT_MS),
    );
    assert(args@.request.headers =~= seq![
        content_type_text_plain_header(),
        state@.zelid_auth_header->0,
    ]);
    Some(args)
}

/// The request that asks where registrations are paid.
pub open spec fn fetch_deployment_information_request() -> Option<HttpRequestEndpointArgsView> {
    match flux_api_url("/apps/deploymentinformation"@) {
        Some(url) => Some(
            HttpRequestEndpointArgsView {
                request: HttpRequestView {
                    url,
                    method: HttpMethod::GET,
                    headers: seq![content_type_text_plain_header()],
                    body: None,
                },
                timeout_ms: Some(DEFAULT_HTTP_REQUEST_TIMEOUT_MS),
                callback_method_name: Some("deployment_information_callback"@),
            },
        ),
        None => None,
    }
}

pub fn fetch_deployment_information() -> (args: Option<HttpRequestEndpointArgs>)
    ensures
        match fetch_deployment_information_request() {
            Some(a) => args is Some && args->0@ == a,
            None => args is None,
        },
{
    let deploymentinformation_url = match flux_api_endpoint("/apps/deploymentinformation") {
        Some(url) => url,
        None => {
            return None;
        },
    };
    let mut headers: Vec<HttpHeader> = Vec::new();
    headers.push(content_type_text_plain());
    let args = http_request_endpoint_args(
        deploymentinformation_url,
        HttpMethod::GET,
        headers,
        None,
        Some("deployment_information_callback".to_owned()),
        Some(DEFAULT_HTTP_REQUEST_TIMEOUT_MS),
    );
    assert(args@.request.headers =~= seq![content_type_text_plain_header()]);
    Some(args)
}

/// Whether an optional text is there and reads `text`.
pub open spec fn is_text(value: Option<String>, text: Seq<char>) -> bool {
    value is Some && value->0@ == text
}

/// Whether an optional list of texts is there and reads `texts`.
pub open spec fn are_texts(value: Option<Vec<String>>, texts: Seq<Seq<char>>) -> bool {
    value is Some && value->0@.len() == texts.len() && forall|i: int|
        0 <= i < texts.len() ==> (#[trigger] value->0@[i])@ == texts[i]
}

/// Whether an optional list of numbers is there and reads `numbers`.
pub open spec fn are_numbers(value: Option<Vec<i32>>, numbers: Seq<i32>) -> bool {
    value is Some && value->0@ == numbers
}

/// The deployment that the host asks for: the request executor, three
/// times, for 5000 blocks, without a static IP address.
pub fn tmp_deployment_info() -> (info: DeploymentInfo)
    ensures
        is_text(info.compose.name, "ichttprequestexecutor"@),
        is_text(info.compose.description, "IC HTTP Request Executor client"@),
        is_text(info.compose.repotag, "omniadevs/ic-http-request-executor:v0.0.5"@),
        are_numbers(info.compose.ports, seq![80i32]),
        are_texts(info.compose.domains, seq![Seq::<char>::empty()]),
        are_texts(
            info.compose.environment_parameters,
            seq![
                "IC_NETWORK_URL=https://icp0.io"@,
                "IC_WS_GATEWAY_URL=wss://gateway.icws.io"@,
                "CANISTER_ID_IC_SIDE_SERVICES_BACKEND=5fhww-dyaaa-aaaao-a26ia-cai"@,
            ],
        ),
        are_texts(info.compose.commands, Seq::<Seq<char>>::empty()),
        are_numbers(info.compose.container_ports, seq![80i32]),
        is_text(info.compose.container_data, "/data"@),
        info.compose.cpu == Some(1i32),
        info.compose.ram == Some(100i32),
        info.compose.hdd == Some(1i32),
        info.compose.tiered == Some(false),
        is_text(info.compose.secrets, Seq::<char>::empty()),
        is_text(info.compose.repoauth, Seq::<char>::empty()),
        info.instances == 3,
        info.expires_after_blocks == 5000,
        info.static_ip == false,
{
    let mut compose = ComposeSpec::new();
    compose.name = Some("ichttprequestexecutor".to_owned());
    compose.description = Some("IC HTTP Request Executor client".to_owned());
    compose.repotag = Some("omniadevs/ic-http-request-executor:v0.0.5".to_owned());
    let mut ports: Vec<i32> = Vec::new();
    ports.push(80);
    assert(ports@ =~= seq![80i32]);
    compose.ports = Some(ports);
    let mut domains: Vec<String> = Vec::new();
    domains.push(String::new());
    compose.domains = Some(domains);
    let mut environment_parameters: Vec<String> = Vec::new();
    environment_parameters.push("IC_NETWORK_URL=https://icp0.io".to_owned());
    environment_parameters.push("IC_WS_GATEWAY_URL=wss://gateway.icws.io".to_owned());
    environment_parameters.push(
        "CANISTER_ID_IC_SIDE_SERVICES_BACKEND=5fhww-dyaaa-aaaao-a26ia-cai".to_owned(),
    );
    compose.environment_parameters = Some(environment_parameters);
    compose.commands = Some(Vec::new());
    let mut container_ports: Vec<i32> = Vec::new();
    container_ports.push(80);
    assert(container_ports@ =~= seq![80i32]);
    compose.container_ports = Some(container_ports);
    compose.container_data = Some("/data".to_owned());
    compose.cpu = Some(1);
    compose.ram = Some(100);
    compose.hdd = Some(1);
    compose.tiered = Some(false);
    compose.secrets = Some(String::new());
    compose.repoauth = Some(String::new());
    DeploymentInfo { compose, instances: 3, expires_after_blocks: 5000, static_ip: false }
}

} // verus!
