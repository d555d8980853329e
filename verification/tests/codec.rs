use http_over_ws::{
    HttpHeader, HttpMethod, HttpOverWsMessage, HttpRequest, HttpResponse,
};

const NOT_A_MESSAGE: &str = "payload is not an HTTP-over-WebSocket message";

fn header(name: &str, value: &str) -> HttpHeader {
    HttpHeader {
        name: String::from(name),
        value: String::from(value),
    }
}

fn roundtrip(message: HttpOverWsMessage) {
    let bytes = message.to_bytes();
    assert_eq!(HttpOverWsMessage::from_bytes(&bytes), Ok(message));
}

fn u64_le(v: u64) -> Vec<u8> {
    v.to_le_bytes().to_vec()
}

#[test]
fn setup_proxy_client_is_the_mark_and_its_tag() {
    let bytes = HttpOverWsMessage::SetupProxyClient.to_bytes();
    assert_eq!(bytes, b"HTTP_WS\x01\x00".to_vec());
}

#[test]
fn request_layout_is_exact() {
    let request = HttpRequest::new("http://x", HttpMethod::GET, vec![], None);
    let bytes = HttpOverWsMessage::HttpRequest(1, request).to_bytes();

    let mut expected = b"HTTP_WS\x01".to_vec();
    expected.push(1); // tag
    expected.extend(u64_le(1)); // id
    expected.extend(u64_le(8)); // length of the url
    expected.extend(b"http://x");
    expected.push(0); // GET
    expected.extend(u64_le(0)); // no headers
    expected.push(0); // no body
    assert_eq!(bytes, expected);
}

#[test]
fn response_layout_is_exact() {
    let response = HttpResponse {
        status: 200,
        headers: vec![header("a", "bc")],
        body: vec![1, 2, 3],
    };
    let bytes = HttpOverWsMessage::HttpResponse(7, response).to_bytes();

    let mut expected = b"HTTP_WS\x01".to_vec();
    expected.push(2); // tag
    expected.extend(u64_le(7)); // id
    expected.extend(u64_le(200)); // status
    expected.extend(u64_le(1)); // one header
    expected.extend(u64_le(1));
    expected.extend(b"a");
    expected.extend(u64_le(2));
    expected.extend(b"bc");
    expected.extend(u64_le(3)); // length of the body
    expected.extend([1, 2, 3]);
    assert_eq!(bytes, expected);
}

#[test]
fn error_layout_is_exact() {
    let with_id = HttpOverWsMessage::Error(Some(9), String::from("no")).to_bytes();
    let mut expected = b"HTTP_WS\x01".to_vec();
    expected.push(3); // tag
    expected.push(1); // an id follows
    expected.extend(u64_le(9));
    expected.extend(u64_le(2));
    expected.extend(b"no");
    assert_eq!(with_id, expected);

    let without_id = HttpOverWsMessage::Error(None, String::new()).to_bytes();
    let mut expected = b"HTTP_WS\x01".to_vec();
    expected.push(3); // tag
    expected.push(0); // no id
    expected.extend(u64_le(0));
    assert_eq!(without_id, expected);
}

#[test]
fn every_message_is_read_back() {
    roundtrip(HttpOverWsMessage::SetupProxyClient);
    roundtrip(HttpOverWsMessage::HttpRequest(
        1,
        HttpRequest::new("http://x", HttpMethod::GET, vec![], None),
    ));
    roundtrip(HttpOverWsMessage::HttpRequest(
        u64::MAX,
        HttpRequest::new(
            "https://example.com/a?b=c",
            HttpMethod::POST,
            vec![header("Content-Type", "text/plain"), header("", "")],
            Some(vec![]),
        ),
    ));
    roundtrip(HttpOverWsMessage::HttpRequest(
        0,
        HttpRequest::new(
            "",
            HttpMethod::DELETE,
            vec![header("x", "y")],
            Some(vec![0, 255, 1]),
        ),
    ));
    roundtrip(HttpOverWsMessage::HttpResponse(
        1,
        HttpResponse {
            status: 200,
            headers: vec![],
            body: vec![1, 2, 3],
        },
    ));
    roundtrip(HttpOverWsMessage::HttpResponse(
        2,
        HttpResponse {
            status: u64::MAX,
            headers: vec![header("a", "b"), header("c", "d"), header("e", "f")],
            body: vec![],
        },
    ));
    roundtrip(HttpOverWsMessage::Error(None, String::from("x")));
    roundtrip(HttpOverWsMessage::Error(Some(3), String::new()));
}

#[test]
fn every_method_is_read_back() {
    for method in [
        HttpMethod::GET,
        HttpMethod::POST,
        HttpMethod::PUT,
        HttpMethod::HEAD,
        HttpMethod::DELETE,
    ] {
        roundtrip(HttpOverWsMessage::HttpRequest(
            5,
            HttpRequest::new("http://x", method, vec![], None),
        ));
    }
}

#[test]
fn texts_beyond_ascii_are_read_back() {
    roundtrip(HttpOverWsMessage::Error(
        Some(1),
        String::from("zażółć gęślą jaźń \u{1F980} \u{10FFFF}"),
    ));
    roundtrip(HttpOverWsMessage::HttpRequest(
        1,
        HttpRequest::new(
            "https://example.com/\u{00e9}",
            HttpMethod::PUT,
            vec![header("\u{4e2d}", "\u{6587}")],
            None,
        ),
    ));
}

fn not_a_message(payload: &[u8]) {
    assert_eq!(
        HttpOverWsMessage::from_bytes(payload),
        Err(String::from(NOT_A_MESSAGE))
    );
}

#[test]
fn foreign_payloads_are_no_messages() {
    not_a_message(&[]);
    not_a_message(&[0]);
    not_a_message(b"DIDL\x00\x00");
    not_a_message(b"HTTP_WS\x01"); // the mark alone
    not_a_message(b"HTTP_WS\x02\x00"); // another version
    not_a_message(b"http_ws\x01\x00");
    not_a_message(b"HTTP_WS\x01\x04"); // no such tag
    not_a_message(b"HTTP_WS\x01\xff");
}

#[test]
fn nothing_may_follow_a_message() {
    let mut bytes = HttpOverWsMessage::SetupProxyClient.to_bytes();
    bytes.push(0);
    not_a_message(&bytes);

    let mut bytes = HttpOverWsMessage::Error(None, String::from("x")).to_bytes();
    bytes.push(7);
    not_a_message(&bytes);
}

#[test]
fn cut_messages_are_no_messages() {
    let message = HttpOverWsMessage::HttpResponse(
        1,
        HttpResponse {
            status: 200,
            headers: vec![header("Content-Type", "text/plain")],
            body: vec![1, 2, 3],
        },
    );
    let bytes = message.to_bytes();
    for cut in 0..bytes.len() {
        not_a_message(&bytes[..cut]);
    }
    assert_eq!(HttpOverWsMessage::from_bytes(&bytes), Ok(message));
}

#[test]
fn a_length_beyond_the_payload_is_no_message() {
    let mut bytes = b"HTTP_WS\x01".to_vec();
    bytes.push(3);
    bytes.push(0);
    bytes.extend(u64_le(u64::MAX));
    bytes.extend(b"x");
    not_a_message(&bytes);

    // a count of headers that the payload cannot hold
    let mut bytes = b"HTTP_WS\x01".to_vec();
    bytes.push(2);
    bytes.extend(u64_le(1));
    bytes.extend(u64_le(200));
    bytes.extend(u64_le(u64::MAX));
    not_a_message(&bytes);
}

#[test]
fn a_text_that_is_not_utf8_is_no_message() {
    let mut bytes = b"HTTP_WS\x01".to_vec();
    bytes.push(3);
    bytes.push(0);
    bytes.extend(u64_le(2));
    bytes.extend([0xc3, 0x28]);
    not_a_message(&bytes);

    // the same bytes are fine where bytes are expected
    let message = HttpOverWsMessage::HttpResponse(
        1,
        HttpResponse {
            status: 200,
            headers: vec![],
            body: vec![0xc3, 0x28],
        },
    );
    roundtrip(message);
}

#[test]
fn an_unknown_method_or_flag_is_no_message() {
    let request = HttpRequest::new("http://x", HttpMethod::GET, vec![], None);
    let good = HttpOverWsMessage::HttpRequest(1, request).to_bytes();
    let method_at = 8 + 1 + 8 + 8 + 8;
    assert_eq!(good[method_at], 0);

    let mut bad_method = good.clone();
    bad_method[method_at] = 5;
    not_a_message(&bad_method);

    let mut bad_flag = good.clone();
    let last = bad_flag.len() - 1;
    bad_flag[last] = 2;
    not_a_message(&bad_flag);

    let mut bad_id_flag = HttpOverWsMessage::Error(None, String::new()).to_bytes();
    bad_id_flag[9] = 2;
    not_a_message(&bad_id_flag);
}
