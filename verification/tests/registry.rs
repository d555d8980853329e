use http_over_ws::{
    execute_http_request, get_http_connection, get_http_response, handle_http_over_ws_message,
    http_connection_timeout, try_disconnect_http_proxy, try_handle_http_over_ws_message,
    ClientProxy, HttpConnection, HttpConnectionEffects, HttpFailureReason, HttpMethod,
    HttpOverWsError, HttpOverWsMessage, HttpRequest, HttpResponse, HttpResult, Principal, State,
};

fn proxy(n: u8) -> Principal {
    Principal::from_slice(&[n])
}

fn request(url: &str) -> HttpRequest {
    HttpRequest::new(url, HttpMethod::GET, vec![], None)
}

fn response(status: u64) -> HttpResponse {
    HttpResponse {
        status,
        headers: vec![],
        body: vec![1, 2, 3],
    }
}

fn nothing_to_do() -> HttpConnectionEffects {
    HttpConnectionEffects {
        clear_timer: false,
        callback: None,
    }
}

/// The number of connected proxies whose response the waiting connection
/// `id`, which has a deadline, takes.
fn owners(state: &mut State, id: u64) -> usize {
    let mut count = 0;
    for principal in state.get_connected_client_principals() {
        let effects = state.update_connection_state(
            &principal,
            id,
            HttpResult::Success(response(200)),
        );
        if effects.clear_timer {
            count += 1;
        } else {
            assert_eq!(effects, nothing_to_do());
        }
    }
    count
}

#[test]
fn one_proxy_takes_the_first_request_under_the_id_one() {
    let mut state = State::new();
    state.add_client(proxy(1));

    let outgoing =
        execute_http_request(&mut state, request("http://x"), None, Some(10_000)).unwrap();
    assert_eq!(outgoing.connection_id, 1);
    assert_eq!(outgoing.proxy_principal, proxy(1));
    assert_eq!(outgoing.timeout_ms, Some(10_000));
    assert_eq!(
        HttpOverWsMessage::from_bytes(&outgoing.message),
        Ok(HttpOverWsMessage::HttpRequest(1, request("http://x")))
    );

    let reply = HttpOverWsMessage::HttpResponse(1, response(200)).to_bytes();
    let handled = try_handle_http_over_ws_message(&mut state, proxy(1), reply).unwrap();
    assert_eq!(handled.timer_to_clear, Some(1));
    assert_eq!(handled.callback, None);

    assert_eq!(get_http_response(&state, 1), Ok(response(200)));
}

#[test]
fn without_a_proxy_no_request_is_taken() {
    let mut state = State::new();
    let res = execute_http_request(&mut state, request("http://x"), None, None);
    assert_eq!(res, Err(HttpOverWsError::NoProxiesConnected));
    assert_eq!(
        get_http_response(&state, 1),
        Err(HttpFailureReason::ConnectionIdNotFound)
    );
    assert_eq!(get_http_connection(&state, 1), None);
}

#[test]
fn a_refused_request_spends_its_id() {
    let mut state = State::new();
    assert!(execute_http_request(&mut state, request("http://x"), None, None).is_err());
    state.add_client(proxy(1));
    let outgoing = execute_http_request(&mut state, request("http://x"), None, None).unwrap();
    assert_eq!(outgoing.connection_id, 2);
}

#[test]
fn a_connection_goes_with_its_proxy() {
    let mut state = State::new();
    state.add_client(proxy(1));
    let id = execute_http_request(&mut state, request("http://x"), None, None)
        .unwrap()
        .connection_id;
    assert_eq!(
        get_http_response(&state, id),
        Err(HttpFailureReason::NotYetReceived)
    );

    assert_eq!(try_disconnect_http_proxy(&mut state, &proxy(1)), Ok(()));

    assert_eq!(
        get_http_response(&state, id),
        Err(HttpFailureReason::ConnectionIdNotFound)
    );
    assert_eq!(get_http_connection(&state, id), None);

    // the deadline of such a connection passes without effect
    http_connection_timeout(&mut state, &proxy(1), id);
    assert_eq!(
        get_http_response(&state, id),
        Err(HttpFailureReason::ConnectionIdNotFound)
    );

    // the id is not handed out again, even to the same proxy
    state.add_client(proxy(1));
    let next = execute_http_request(&mut state, request("http://x"), None, None)
        .unwrap()
        .connection_id;
    assert_eq!(next, id + 1);
    assert_eq!(
        get_http_response(&state, id),
        Err(HttpFailureReason::ConnectionIdNotFound)
    );
}

#[test]
fn disconnecting_an_unknown_proxy_is_reported() {
    let mut state = State::new();
    state.add_client(proxy(1));
    assert_eq!(
        try_disconnect_http_proxy(&mut state, &proxy(2)),
        Err(HttpFailureReason::ProxyError(String::from(
            "client not connected"
        )))
    );
    assert_eq!(state.connected_clients_count(), 1);
}

#[test]
fn requests_go_to_the_proxies_in_turn() {
    let mut state = State::new();
    state.add_client(proxy(10));
    state.add_client(proxy(20));
    state.add_client(proxy(30));
    assert_eq!(
        state.get_connected_client_principals(),
        vec![proxy(10), proxy(20), proxy(30)]
    );

    let mut assigned = Vec::new();
    for _ in 0..7 {
        let outgoing = execute_http_request(&mut state, request("http://x"), None, None).unwrap();
        assigned.push((outgoing.connection_id, outgoing.proxy_principal));
    }
    // the id modulo three: 1, 2, 0, 1, 2, 0, 1
    assert_eq!(
        assigned,
        vec![
            (1, proxy(20)),
            (2, proxy(30)),
            (3, proxy(10)),
            (4, proxy(20)),
            (5, proxy(30)),
            (6, proxy(10)),
            (7, proxy(20)),
        ]
    );
}

#[test]
fn issued_ids_differ_and_each_has_one_owner() {
    let mut state = State::new();
    for n in 1..=4 {
        state.add_client(proxy(n));
    }
    let mut ids = Vec::new();
    for i in 0..25 {
        let url = format!("http://x/{}", i);
        let outgoing =
            execute_http_request(&mut state, request(&url), None, Some(1_000)).unwrap();
        ids.push(outgoing.connection_id);
        assert_eq!(get_http_connection(&state, outgoing.connection_id), Some(request(&url)));
    }
    for (i, a) in ids.iter().enumerate() {
        for b in ids.iter().skip(i + 1) {
            assert!(a < b);
        }
        assert_eq!(owners(&mut state, *a), 1);
    }
}

#[test]
fn ids_rise_while_proxies_come_and_go() {
    let mut state = State::new();
    state.add_client(proxy(1));
    let first = execute_http_request(&mut state, request("http://a"), None, None)
        .unwrap()
        .connection_id;
    state.add_client(proxy(2));
    let second = execute_http_request(&mut state, request("http://b"), None, None)
        .unwrap()
        .connection_id;
    assert_eq!(try_disconnect_http_proxy(&mut state, &proxy(1)), Ok(()));
    assert_eq!(try_disconnect_http_proxy(&mut state, &proxy(2)), Ok(()));
    // a request that is refused in between
    assert_eq!(
        execute_http_request(&mut state, request("http://c"), None, None),
        Err(HttpOverWsError::NoProxiesConnected)
    );
    state.add_client(proxy(3));
    let third = execute_http_request(&mut state, request("http://d"), None, None)
        .unwrap()
        .connection_id;
    assert!(first < second && second < third);
    assert_eq!((first, second, third), (1, 2, 4));
    assert_eq!(state.last_connection_id(), 4);
}

#[test]
fn the_counter_of_ids_has_an_end() {
    let mut state = State::resuming_after(u64::MAX - 1);
    assert!(state.can_assign());
    assert_eq!(state.last_connection_id(), u64::MAX - 1);
    assert_eq!(state.connected_clients_count(), 0);
    state.add_client(proxy(1));
    state.add_client(proxy(2));

    let last = execute_http_request(&mut state, request("http://x"), None, None).unwrap();
    assert_eq!(last.connection_id, u64::MAX);
    // the largest id is odd, so with two proxies the second takes it
    assert_eq!(last.proxy_principal, proxy(2));
    assert!(!state.can_assign());

    // from now on no request is taken, and nothing changes
    for _ in 0..3 {
        assert_eq!(
            execute_http_request(&mut state, request("http://y"), None, None),
            Err(HttpOverWsError::NoConnectionIdLeft)
        );
    }
    assert_eq!(state.last_connection_id(), u64::MAX);
    assert_eq!(get_http_connection(&state, u64::MAX), Some(request("http://x")));
    assert_eq!(get_http_connection(&state, 0), None);
    assert_eq!(
        get_http_response(&state, u64::MAX),
        Err(HttpFailureReason::NotYetReceived)
    );

    // without a proxy either, the id is what is missing
    let mut state = State::resuming_after(u64::MAX);
    assert_eq!(
        execute_http_request(&mut state, request("http://y"), None, None),
        Err(HttpOverWsError::NoConnectionIdLeft)
    );
}

#[test]
fn any_reason_reported_for_a_waiting_connection_is_recorded() {
    let reasons = [
        HttpFailureReason::RequestTimeout,
        HttpFailureReason::ProxyError(String::from("boom")),
        HttpFailureReason::ConnectionIdNotFound,
        HttpFailureReason::NotYetReceived,
    ];
    for reason in reasons {
        let mut state = State::new();
        state.add_client(proxy(1));
        let id = execute_http_request(
            &mut state,
            request("http://x"),
            Some(String::from("on_response")),
            Some(1_000),
        )
        .unwrap()
        .connection_id;

        assert_eq!(
            state.update_connection_state(&proxy(1), id, HttpResult::Failure(reason.clone())),
            nothing_to_do()
        );
        assert_eq!(get_http_response(&state, id), Err(reason.clone()));
        assert_eq!(get_http_connection(&state, id), Some(request("http://x")));

        // the failure stays: a response that comes afterwards is not taken
        assert_eq!(
            state.handle_http_response(&proxy(1), id, response(200)),
            nothing_to_do()
        );
        assert_eq!(get_http_response(&state, id), Err(reason));
    }
}

#[test]
fn a_reported_failure_is_kept_by_the_proxy_and_the_connection() {
    let mut holder = ClientProxy::new(proxy(1));
    holder.assign_connection(7, HttpConnection::new(7, request("http://x"), None, None));
    holder.report_connection_failure(7, HttpFailureReason::ConnectionIdNotFound);
    assert_eq!(
        holder.get_connection(7).map(|c| c.get_response()),
        Ok(Err(HttpFailureReason::ConnectionIdNotFound))
    );

    let mut connection = HttpConnection::new(3, request("http://y"), None, Some(5));
    let effects = connection.update_state(HttpResult::Failure(HttpFailureReason::NotYetReceived));
    assert_eq!(effects, nothing_to_do());
    assert_eq!(connection.get_response(), Err(HttpFailureReason::NotYetReceived));
    assert_eq!(connection.get_request(), request("http://y"));
}

#[test]
fn only_the_owner_resolves_a_connection() {
    let mut state = State::new();
    state.add_client(proxy(1));
    state.add_client(proxy(2));
    let outgoing = execute_http_request(&mut state, request("http://x"), None, None).unwrap();
    let id = outgoing.connection_id;
    let owner = outgoing.proxy_principal;
    let other = if owner == proxy(1) { proxy(2) } else { proxy(1) };

    // a response, an error and a timeout on behalf of the other proxy
    let reply = HttpOverWsMessage::HttpResponse(id, response(200)).to_bytes();
    let handled = try_handle_http_over_ws_message(&mut state, other.clone(), reply).unwrap();
    assert_eq!(handled.timer_to_clear, None);
    assert_eq!(handled.callback, None);
    let error = HttpOverWsMessage::Error(Some(id), String::from("boom")).to_bytes();
    assert!(try_handle_http_over_ws_message(&mut state, other.clone(), error).is_ok());
    http_connection_timeout(&mut state, &other, id);
    assert_eq!(
        state.update_connection_state(&other, id, HttpResult::Success(response(500))),
        nothing_to_do()
    );
    assert_eq!(
        state.handle_http_response(&other, id, response(500)),
        nothing_to_do()
    );
    assert_eq!(
        get_http_response(&state, id),
        Err(HttpFailureReason::NotYetReceived)
    );

    // a proxy that is not connected at all
    assert_eq!(
        state.update_connection_state(&proxy(9), id, HttpResult::Success(response(500))),
        nothing_to_do()
    );
    assert_eq!(
        state.handle_http_response(&proxy(9), id, response(500)),
        nothing_to_do()
    );
    assert_eq!(
        get_http_response(&state, id),
        Err(HttpFailureReason::NotYetReceived)
    );

    let reply = HttpOverWsMessage::HttpResponse(id, response(200)).to_bytes();
    assert!(try_handle_http_over_ws_message(&mut state, owner, reply).is_ok());
    assert_eq!(get_http_response(&state, id), Ok(response(200)));
}

#[test]
fn the_first_outcome_stays() {
    let mut state = State::new();
    state.add_client(proxy(1));

    // a response, then an error and a timeout
    let id = execute_http_request(
        &mut state,
        request("http://x"),
        Some(String::from("on_response")),
        Some(5_000),
    )
    .unwrap()
    .connection_id;
    let first = state
        .handle_http_response(&proxy(1), id, response(200));
    assert_eq!(
        first,
        HttpConnectionEffects {
            clear_timer: true,
            callback: Some(String::from("on_response")),
        }
    );
    let second = state
        .handle_http_response(&proxy(1), id, response(200));
    assert_eq!(
        second,
        HttpConnectionEffects {
            clear_timer: false,
            callback: None,
        }
    );
    state.report_connection_failure(&proxy(1), id, HttpFailureReason::ProxyError(String::from("late")));
    http_connection_timeout(&mut state, &proxy(1), id);
    assert_eq!(get_http_response(&state, id), Ok(response(200)));

    // an error, then a response and a timeout
    let id = execute_http_request(&mut state, request("http://x"), None, Some(5_000))
        .unwrap()
        .connection_id;
    let error = HttpOverWsMessage::Error(Some(id), String::from("boom")).to_bytes();
    assert!(try_handle_http_over_ws_message(&mut state, proxy(1), error).is_ok());
    let late = state
        .handle_http_response(&proxy(1), id, response(200));
    assert_eq!(
        late,
        HttpConnectionEffects {
            clear_timer: false,
            callback: None,
        }
    );
    http_connection_timeout(&mut state, &proxy(1), id);
    assert_eq!(
        get_http_response(&state, id),
        Err(HttpFailureReason::ProxyError(String::from("boom")))
    );

    // a timeout, then a response and an error
    let id = execute_http_request(
        &mut state,
        request("http://x"),
        Some(String::from("on_response")),
        Some(5_000),
    )
    .unwrap()
    .connection_id;
    http_connection_timeout(&mut state, &proxy(1), id);
    let reply = HttpOverWsMessage::HttpResponse(id, response(200)).to_bytes();
    let handled = try_handle_http_over_ws_message(&mut state, proxy(1), reply).unwrap();
    assert_eq!(handled.timer_to_clear, None);
    assert_eq!(handled.callback, None);
    let error = HttpOverWsMessage::Error(Some(id), String::from("boom")).to_bytes();
    assert!(try_handle_http_over_ws_message(&mut state, proxy(1), error).is_ok());
    assert_eq!(
        get_http_response(&state, id),
        Err(HttpFailureReason::RequestTimeout)
    );
}

#[test]
fn a_reported_outcome_leaves_other_connections_alone() {
    let mut state = State::new();
    state.add_client(proxy(1));
    let a = execute_http_request(&mut state, request("http://a"), None, None)
        .unwrap()
        .connection_id;
    let b = execute_http_request(&mut state, request("http://b"), None, None)
        .unwrap()
        .connection_id;

    assert_eq!(
        state.handle_http_response(&proxy(1), a, response(200)),
        nothing_to_do()
    );

    assert_eq!(get_http_response(&state, a), Ok(response(200)));
    assert_eq!(
        get_http_response(&state, b),
        Err(HttpFailureReason::NotYetReceived)
    );
    assert_eq!(get_http_connection(&state, a), Some(request("http://a")));
    assert_eq!(get_http_connection(&state, b), Some(request("http://b")));
}

#[test]
fn a_proxy_that_connects_again_keeps_its_place_and_loses_its_connections() {
    let mut state = State::new();
    state.add_client(proxy(1));
    state.add_client(proxy(2));
    // the first id goes to the second proxy
    let outgoing = execute_http_request(&mut state, request("http://x"), None, None).unwrap();
    assert_eq!(outgoing.proxy_principal, proxy(2));
    let lost = outgoing.connection_id;
    // the second id goes to the first proxy
    let outgoing = execute_http_request(&mut state, request("http://y"), None, None).unwrap();
    assert_eq!(outgoing.proxy_principal, proxy(1));
    let kept = outgoing.connection_id;

    let announce = HttpOverWsMessage::SetupProxyClient.to_bytes();
    let handled = try_handle_http_over_ws_message(&mut state, proxy(2), announce).unwrap();
    assert_eq!(handled.timer_to_clear, None);
    assert_eq!(handled.callback, None);

    assert_eq!(
        state.get_connected_client_principals(),
        vec![proxy(1), proxy(2)]
    );
    assert_eq!(
        get_http_response(&state, lost),
        Err(HttpFailureReason::ConnectionIdNotFound)
    );
    assert_eq!(
        get_http_response(&state, kept),
        Err(HttpFailureReason::NotYetReceived)
    );
}

#[test]
fn a_request_from_a_proxy_is_refused() {
    let mut state = State::new();
    state.add_client(proxy(1));
    let id = execute_http_request(&mut state, request("http://x"), None, None)
        .unwrap()
        .connection_id;

    let forged = HttpOverWsMessage::HttpRequest(id, request("http://evil")).to_bytes();
    assert_eq!(
        try_handle_http_over_ws_message(&mut state, proxy(1), forged),
        Err(HttpOverWsError::InvalidHttpMessage)
    );
    assert_eq!(get_http_connection(&state, id), Some(request("http://x")));
    assert_eq!(
        get_http_response(&state, id),
        Err(HttpFailureReason::NotYetReceived)
    );
    assert!(state.can_assign());
    let next = execute_http_request(&mut state, request("http://x"), None, None)
        .unwrap()
        .connection_id;
    assert_eq!(next, id + 1);
}

#[test]
fn a_decoded_message_is_handled_like_its_bytes() {
    let mut state = State::new();
    let announce = HttpOverWsMessage::SetupProxyClient;
    assert!(handle_http_over_ws_message(&mut state, proxy(1), announce).is_ok());
    assert_eq!(state.get_connected_client_principals(), vec![proxy(1)]);

    let id = execute_http_request(
        &mut state,
        request("http://x"),
        Some(String::from("on_response")),
        Some(1_000),
    )
    .unwrap()
    .connection_id;
    let reply = HttpOverWsMessage::HttpResponse(id, response(200));
    let handled = handle_http_over_ws_message(&mut state, proxy(1), reply).unwrap();
    assert_eq!(handled.timer_to_clear, Some(id));
    assert_eq!(handled.callback.unwrap().response, response(200));
    assert_eq!(get_http_response(&state, id), Ok(response(200)));

    let forged = HttpOverWsMessage::HttpRequest(id, request("http://evil"));
    assert_eq!(
        handle_http_over_ws_message(&mut state, proxy(1), forged),
        Err(HttpOverWsError::InvalidHttpMessage)
    );
}

#[test]
fn a_foreign_payload_is_handed_back() {
    let mut state = State::new();
    state.add_client(proxy(1));
    let res = try_handle_http_over_ws_message(&mut state, proxy(1), b"DIDL\x00\x00".to_vec());
    assert_eq!(
        res,
        Err(HttpOverWsError::NotHttpOverWsType(String::from(
            "payload is not an HTTP-over-WebSocket message"
        )))
    );
    assert_eq!(state.connected_clients_count(), 1);
}

#[test]
fn an_error_about_no_request_changes_nothing() {
    let mut state = State::new();
    state.add_client(proxy(1));
    let id = execute_http_request(&mut state, request("http://x"), None, None)
        .unwrap()
        .connection_id;
    let error = HttpOverWsMessage::Error(None, String::from("boom")).to_bytes();
    let handled = try_handle_http_over_ws_message(&mut state, proxy(1), error).unwrap();
    assert_eq!(handled.timer_to_clear, None);
    assert_eq!(handled.callback, None);
    assert_eq!(
        get_http_response(&state, id),
        Err(HttpFailureReason::NotYetReceived)
    );
}

#[test]
fn a_response_without_a_deadline_stops_no_timer() {
    let mut state = State::new();
    state.add_client(proxy(1));
    let id = execute_http_request(
        &mut state,
        request("http://x"),
        Some(String::from("on_response")),
        None,
    )
    .unwrap()
    .connection_id;
    let reply = HttpOverWsMessage::HttpResponse(id, response(404)).to_bytes();
    let handled = try_handle_http_over_ws_message(&mut state, proxy(1), reply).unwrap();
    assert_eq!(handled.timer_to_clear, None);
    let call = handled.callback.unwrap();
    assert_eq!(call.callback, "on_response");
    assert_eq!(call.connection_id, id);
    assert_eq!(call.response, response(404));
}

#[test]
fn principals_are_told_apart_by_their_bytes() {
    assert!(proxy(1).is(&proxy(1)));
    assert!(!proxy(1).is(&proxy(2)));
    assert!(!Principal::from_slice(&[1, 2]).is(&Principal::from_slice(&[1])));
    assert!(Principal::from_slice(&[]).is(&Principal::from_slice(&[])));
    assert_eq!(proxy(7).as_slice(), &[7]);
    assert!(Principal::anonymous().is_anonymous());
    assert!(Principal::from_slice(&[4]).is_anonymous());
    assert!(!proxy(5).is_anonymous());
    assert!(!Principal::from_slice(&[4, 4]).is_anonymous());
}

#[test]
fn the_request_is_given_back_unaltered_whatever_is_reported() {
    let mut state = State::new();
    state.add_client(proxy(1));
    let id = execute_http_request(&mut state, request("http://x"), None, Some(1_000))
        .unwrap()
        .connection_id;
    assert_eq!(get_http_connection(&state, id), Some(request("http://x")));

    http_connection_timeout(&mut state, &proxy(1), id);
    assert_eq!(get_http_connection(&state, id), Some(request("http://x")));

    state.handle_http_response(&proxy(1), id, response(200));
    state.report_connection_failure(
        &proxy(1),
        id,
        HttpFailureReason::ProxyError(String::from("late")),
    );
    state.add_client(proxy(2));
    execute_http_request(&mut state, request("http://y"), None, None).unwrap();
    assert_eq!(get_http_connection(&state, id), Some(request("http://x")));
    assert_eq!(get_http_response(&state, id), Err(HttpFailureReason::RequestTimeout));

    try_disconnect_http_proxy(&mut state, &proxy(1)).unwrap();
    assert_eq!(get_http_connection(&state, id), None);
}
