use pulcinella::hyper_helpers::{Address, RequestError, ResponseError};
use pulcinella::interchange::{InstanceId, MockRule, ThenState, WhenRules};
use pulcinella::request::{Header, UnpackedRequest};
use pulcinella::proxy::{proxy_reply, proxy_response_to_response, ProxyError, request_from_proxy, request_to, UpstreamResponse};
use pulcinella::server::{miss, serve_mock, MockOutcome, Mode, SequentialState};

fn line(name: &str, value: &[u8]) -> Header {
    (name.to_string(), value.to_vec())
}

fn incoming() -> UnpackedRequest {
    UnpackedRequest {
        method: "PATCH".to_string(),
        path: "/deep/path".to_string(),
        headers: vec![
            line("accept", b"*/*"),
            line("host", b"upstream.example:8081"),
            line("x-bytes", b"\xff\xfe"),
            line("accept", b"text/plain"),
        ],
        body: b"\x00binary\xffbody".to_vec(),
    }
}

#[test]
fn a_forwarded_request_is_the_one_that_came_in() {
    let request = request_from_proxy(incoming()).unwrap();
    let came_in = incoming();
    assert_eq!(request.address.host, "upstream.example");
    assert_eq!(request.address.port, 8081);
    assert_eq!(request.address.text(), "upstream.example:8081");
    assert_eq!(request.method, came_in.method);
    assert_eq!(request.path, came_in.path);
    assert_eq!(request.headers, came_in.headers);
    assert_eq!(request.body, came_in.body);
}

#[test]
fn a_request_goes_to_the_upstream_it_is_given() {
    let target = Address { host: "elsewhere".to_string(), port: 9 };
    let request = request_to(incoming(), Some(target)).unwrap();
    assert_eq!(request.address.text(), "elsewhere:9");
    assert_eq!(request.headers, incoming().headers);
    assert_eq!(request.body, incoming().body);
    assert_eq!(request_to(incoming(), None).unwrap_err(), ProxyError::BadHostHeader);
}

#[test]
fn a_request_without_upstream_is_refused() {
    let mut nameless = incoming();
    nameless.headers.remove(1);
    assert_eq!(request_from_proxy(nameless).unwrap_err(), ProxyError::BadHostHeader);
    let mut malformed = incoming();
    malformed.headers[1].1 = b"not a url".to_vec();
    assert_eq!(request_from_proxy(malformed).unwrap_err(), ProxyError::BadHostHeader);
}

#[test]
fn a_miss_in_proxy_mode_is_sent_on() {
    match miss(incoming(), Mode::Proxy) {
        MockOutcome::Forward(request) => {
            assert_eq!(request.address.text(), "upstream.example:8081");
            assert_eq!(request.method, "PATCH");
        }
        MockOutcome::Reply(reply) => panic!("unexpected reply: {:?}", reply),
    }
    match miss(incoming(), Mode::Mock) {
        MockOutcome::Reply(reply) => assert_eq!(reply.status, 404),
        MockOutcome::Forward(request) => panic!("unexpected forward: {:?}", request),
    }
}

#[test]
fn a_rule_answers_before_the_proxy_is_asked() {
    let id = InstanceId::new("one".to_string());
    let mut state = SequentialState::new(4200);
    state.create_instance_as(id.clone());
    let installed = state.install_mock(
        &id,
        MockRule {
            when: WhenRules {
                match_path: "/deep/path".to_string(),
                form_data: vec![],
                method: None,
            },
            then_state: ThenState { status: 299, headers: vec![], body: vec![] },
        },
    );
    assert!(installed.is_ok());
    match serve_mock(&state, incoming(), Mode::Proxy) {
        MockOutcome::Reply(reply) => assert_eq!(reply.status, 299),
        MockOutcome::Forward(request) => panic!("unexpected forward: {:?}", request),
    }
    let mut elsewhere = incoming();
    elsewhere.path = "/deep/path/".to_string();
    assert!(matches!(serve_mock(&state, elsewhere, Mode::Proxy), MockOutcome::Forward(_)));
}

fn came_back(status: u16) -> UpstreamResponse {
    UpstreamResponse {
        status,
        headers: vec![
            line("content-type", b"application/octet-stream"),
            line("set-cookie", b"a=1"),
            line("set-cookie", b"b=2"),
            line("x-bytes", b"\x80\x81"),
        ],
        body: Ok(b"\x00upstream\xff".to_vec()),
    }
}

#[test]
fn a_relayed_response_is_the_one_that_came_back() {
    for status in [100u16, 200, 304, 404, 500, 599, 999] {
        let reply = proxy_response_to_response(came_back(status)).unwrap();
        assert_eq!(reply.status, status);
        assert_eq!(reply.headers, came_back(status).headers);
        assert_eq!(reply.body, b"\x00upstream\xff");
    }
}

#[test]
fn a_response_that_cannot_be_relayed_is_an_error() {
    let mut unread = came_back(200);
    unread.body = Err(ResponseError::CannotFetchBody);
    assert_eq!(
        proxy_response_to_response(unread).unwrap_err(),
        ProxyError::CannotReadResponseBody
    );
    for status in [0u16, 99, 1000, 65535] {
        assert_eq!(
            proxy_response_to_response(came_back(status)).unwrap_err(),
            ProxyError::CannotConstructResponseBody
        );
    }
    let mut both = came_back(0);
    both.body = Err(ResponseError::DeserializeError);
    assert_eq!(
        proxy_response_to_response(both).unwrap_err(),
        ProxyError::CannotReadResponseBody
    );
}

#[test]
fn the_client_gets_the_relayed_response_with_the_cors_header() {
    let mut response = came_back(207);
    response.headers.insert(1, line("access-control-allow-origin", b"https://x.example"));
    let reply = proxy_reply(Ok(response));
    assert_eq!(reply.status, 207);
    assert_eq!(reply.body, b"\x00upstream\xff");
    let mut expected = came_back(207).headers;
    expected.push(line("Access-Control-Allow-Origin", b"*"));
    assert_eq!(reply.headers, expected);
}

#[test]
fn the_client_gets_the_reply_of_the_error_that_ended_the_exchange() {
    let ends: [(RequestError, u16, &str); 4] = [
        (RequestError::CannotConnect, 502, "Upstream not found"),
        (RequestError::UpstreamNotHttp, 502, "Upstream not HTTP"),
        (RequestError::UpstreamSendError, 502, "Upstream send error"),
        (RequestError::CannotSerializeBody, 502, "Upstream send error"),
    ];
    for (error, status, text) in ends {
        let reply = proxy_reply(Err(error));
        assert_eq!(reply.status, status);
        assert_eq!(reply.body, text.as_bytes());
        assert_eq!(reply.headers, vec![line("Access-Control-Allow-Origin", b"*")]);
    }
    let mut unread = came_back(200);
    unread.body = Err(ResponseError::CannotFetchBody);
    let reply = proxy_reply(Ok(unread));
    assert_eq!((reply.status, reply.body.as_slice()), (502, &b"Cannot read response body"[..]));
    let reply = proxy_reply(Ok(came_back(42)));
    assert_eq!(
        (reply.status, reply.body.as_slice()),
        (502, &b"Cannot construct response body"[..])
    );
}
