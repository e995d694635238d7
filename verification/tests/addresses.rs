use pulcinella::hyper_helpers::{port_text, Address, HyperHelpers, DEFAULT_PORT};
use pulcinella::network_client::NetworkClient;
use pulcinella::request::{eq_ignore_case, find_header, text_eq, UnpackedRequest};
use pulcinella::proxy::address_from_request;

fn parsed(text: &[u8]) -> Option<(String, u16)> {
    HyperHelpers::parse_address(text).map(|address| (address.host, address.port))
}

fn request_with(headers: Vec<(&str, &[u8])>) -> UnpackedRequest {
    UnpackedRequest {
        method: "GET".to_string(),
        path: "/".to_string(),
        headers: headers
            .into_iter()
            .map(|(name, value)| (name.to_string(), value.to_vec()))
            .collect(),
        body: vec![],
    }
}

fn upstream(headers: Vec<(&str, &[u8])>) -> Option<(String, u16)> {
    address_from_request(&request_with(headers)).map(|address| (address.host, address.port))
}

#[test]
fn an_authority_names_host_and_port() {
    assert_eq!(parsed(b"localhost:8080"), Some(("localhost".to_string(), 8080)));
    assert_eq!(parsed(b"example.org:1"), Some(("example.org".to_string(), 1)));
    assert_eq!(parsed(b"127.0.0.1:65535"), Some(("127.0.0.1".to_string(), 65535)));
    assert_eq!(parsed(b"[::1]:9000"), Some(("[::1]".to_string(), 9000)));
}

#[test]
fn the_port_defaults_to_80() {
    assert_eq!(DEFAULT_PORT, 80);
    assert_eq!(parsed(b"example.org"), Some(("example.org".to_string(), 80)));
    assert_eq!(parsed(b"[::1]"), Some(("[::1]".to_string(), 80)));
}

#[test]
fn what_is_no_authority_is_refused() {
    assert_eq!(parsed(b""), None);
    assert_eq!(parsed(b"not a url"), None);
    assert_eq!(parsed(b"localhost:80/path"), None);
    assert_eq!(parsed(b"http://localhost:80"), None);
    assert_eq!(parsed(b"localhost:8080:3030"), None);
    assert_eq!(parsed(b"[::1"), None);
    assert_eq!(parsed(b"caf\xc3\xa9.example"), None);
}

#[test]
fn address_from_parts_fills_in_the_port() {
    let with_port = HyperHelpers::address_from_parts(Some(("h".to_string(), Some(81)))).unwrap();
    assert_eq!((with_port.host.as_str(), with_port.port), ("h", 81));
    let without = HyperHelpers::address_from_parts(Some(("h".to_string(), None))).unwrap();
    assert_eq!((without.host.as_str(), without.port), ("h", 80));
    assert!(HyperHelpers::address_from_parts(None).is_none());
}

#[test]
fn the_upstream_is_read_from_the_host_header() {
    assert_eq!(
        upstream(vec![("accept", b"*/*"), ("host", b"localhost:4711")]),
        Some(("localhost".to_string(), 4711))
    );
    assert_eq!(
        upstream(vec![("Host", b"example.org")]),
        Some(("example.org".to_string(), 80))
    );
    assert_eq!(
        upstream(vec![("HOST", b"first:1"), ("host", b"second:2")]),
        Some(("first".to_string(), 1))
    );
}

#[test]
fn a_missing_or_malformed_host_header_names_no_upstream() {
    assert_eq!(upstream(vec![]), None);
    assert_eq!(upstream(vec![("hosts", b"localhost:1"), ("x-host", b"localhost:2")]), None);
    assert_eq!(upstream(vec![("host", b"not a url")]), None);
    assert_eq!(upstream(vec![("host", b"")]), None);
    assert_eq!(upstream(vec![("host", b"local\x7fhost")]), None);
    assert_eq!(upstream(vec![("host", b"localhost\n")]), None);
    assert_eq!(upstream(vec![("host", b"bad host"), ("host", b"good:1")]), None);
}

#[test]
fn header_names_are_compared_without_case() {
    assert!(eq_ignore_case("Content-Type", "content-type"));
    assert!(eq_ignore_case("HOST", "host"));
    assert!(eq_ignore_case("", ""));
    assert!(!eq_ignore_case("host", "hos"));
    assert!(!eq_ignore_case("host", "hosts"));
    assert!(!eq_ignore_case("x_a", "x-a"));
    assert!(!eq_ignore_case("@", "`"));
    assert!(!eq_ignore_case("[", "{"));
    assert!(eq_ignore_case("Az", "aZ"));
    assert!(!eq_ignore_case("\u{c9}", "\u{e9}"));
    assert!(eq_ignore_case("\u{e9}X", "\u{e9}x"));
    assert!(text_eq("host", "host"));
    assert!(!text_eq("host", "Host"));
    assert!(!text_eq("host", "hos"));
    assert!(text_eq("", ""));
}

#[test]
fn find_header_gives_the_first_value_of_a_name() {
    let headers = vec![
        ("A".to_string(), b"1".to_vec()),
        ("b".to_string(), b"2".to_vec()),
        ("a".to_string(), b"3".to_vec()),
    ];
    assert_eq!(find_header(&headers, "a"), Some(&b"1".to_vec()));
    assert_eq!(find_header(&headers, "B"), Some(&b"2".to_vec()));
    assert_eq!(find_header(&headers, "c"), None);
    assert_eq!(find_header(&vec![], "a"), None);
}

#[test]
fn ports_are_written_in_decimal() {
    assert_eq!(port_text(0), "0");
    assert_eq!(port_text(7), "7");
    assert_eq!(port_text(10), "10");
    assert_eq!(port_text(80), "80");
    assert_eq!(port_text(4099), "4099");
    assert_eq!(port_text(65535), "65535");
    for port in [1u16, 9, 99, 100, 101, 1000, 12345, 60000] {
        assert_eq!(port_text(port), port.to_string());
    }
    let address = Address { host: "localhost".to_string(), port: 8080 };
    assert_eq!(address.text(), "localhost:8080");
}

#[test]
fn a_url_names_the_endpoint_of_the_control_plane() {
    let endpoint = NetworkClient::endpoint("http://localhost:3000/").unwrap();
    assert_eq!(endpoint.address.host, "localhost");
    assert_eq!(endpoint.address.port, 3000);
    assert_eq!(endpoint.path, "/");

    let endpoint = NetworkClient::endpoint("http://example.org/control?x=1").unwrap();
    assert_eq!(endpoint.address.text(), "example.org:80");
    assert_eq!(endpoint.path, "/control");

    let endpoint = NetworkClient::endpoint("http://127.0.0.1:4100").unwrap();
    assert_eq!(endpoint.address.text(), "127.0.0.1:4100");
    assert_eq!(endpoint.path, "/");
}

#[test]
fn a_text_without_a_host_names_no_endpoint() {
    assert!(NetworkClient::endpoint("").is_none());
    assert!(NetworkClient::endpoint("not a url").is_none());
    assert!(NetworkClient::endpoint("/only/a/path").is_none());
    assert!(NetworkClient::endpoint_from_parts(None).is_none());
    assert!(NetworkClient::endpoint_from_parts(Some((None, Some(1), "/".to_string()))).is_none());
    let endpoint =
        NetworkClient::endpoint_from_parts(Some((Some("h".to_string()), None, "/x".to_string())))
            .unwrap();
    assert_eq!((endpoint.address.text().as_str(), endpoint.path.as_str()), ("h:80", "/x"));
}
