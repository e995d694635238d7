use pulcinella::form::FormFields;
use pulcinella::interchange::{Method, MockRule, ThenState, WhenRules};
use pulcinella::request::UnpackedRequest;

fn rule(path: &str, method: Option<Method>, form_data: &[(&str, &str)]) -> MockRule {
    MockRule {
        when: WhenRules {
            match_path: path.to_string(),
            form_data: form_data
                .iter()
                .map(|(name, value)| (name.to_string(), value.to_string()))
                .collect(),
            method,
        },
        then_state: ThenState { status: 200, headers: vec![], body: vec![] },
    }
}

fn request(method: &str, path: &str, body: &[u8]) -> UnpackedRequest {
    UnpackedRequest {
        method: method.to_string(),
        path: path.to_string(),
        headers: vec![],
        body: body.to_vec(),
    }
}

#[test]
fn path_match_is_exact() {
    let on_a = rule("/a", None, &[]);
    assert!(on_a.matches(&request("GET", "/a", b"")));
    assert!(!on_a.matches(&request("GET", "/a/", b"")));
    assert!(!on_a.matches(&request("GET", "/A", b"")));
    assert!(!on_a.matches(&request("GET", "/", b"")));
    assert!(!on_a.matches(&request("GET", "", b"")));
    assert!(!on_a.matches(&request("GET", "/ab", b"")));
}

#[test]
fn missing_method_constraint_matches_any_method() {
    let any = rule("/p", None, &[]);
    for method in ["GET", "POST", "PUT", "DELETE", "PATCH", "HEAD"] {
        assert!(any.matches(&request(method, "/p", b"")));
    }
}

#[test]
fn method_constraint_asks_for_the_same_token() {
    let delete = rule("/p", Some(Method::DELETE), &[]);
    assert!(delete.matches(&request("DELETE", "/p", b"")));
    assert!(!delete.matches(&request("GET", "/p", b"")));
    assert!(!delete.matches(&request("delete", "/p", b"")));
    assert!(!delete.matches(&request("DELETED", "/p", b"")));
    assert!(!delete.matches(&request("", "/p", b"")));
}

#[test]
fn method_match_tells_the_four_methods_apart() {
    let methods = [
        (Method::GET, "GET"),
        (Method::POST, "POST"),
        (Method::PUT, "PUT"),
        (Method::DELETE, "DELETE"),
    ];
    for (method, _) in &methods {
        for (_, token) in &methods {
            assert_eq!(
                MockRule::method_match(method, token),
                method.as_str() == *token
            );
        }
    }
    assert_eq!(Method::GET.as_str(), "GET");
    assert_eq!(Method::POST.as_str(), "POST");
    assert_eq!(Method::PUT.as_str(), "PUT");
    assert_eq!(Method::DELETE.as_str(), "DELETE");
}

#[test]
fn empty_form_data_does_not_constrain_the_body() {
    let unconstrained = rule("/p", None, &[]);
    assert!(unconstrained.matches(&request("POST", "/p", b"")));
    assert!(unconstrained.matches(&request("POST", "/p", b"k=v")));
    assert!(unconstrained.matches(&request("POST", "/p", b"\xff\x00 not a form")));
}

#[test]
fn form_data_asks_for_the_same_set_of_names() {
    let one = rule("/p", None, &[("k", "v")]);
    assert!(one.matches(&request("POST", "/p", b"k=v")));
    assert!(!one.matches(&request("POST", "/p", b"k=v&x=y")));
    assert!(!one.matches(&request("POST", "/p", b"k=w")));
    assert!(!one.matches(&request("POST", "/p", b"x=v")));
    assert!(!one.matches(&request("POST", "/p", b"")));

    let two = rule("/p", None, &[("a", "1"), ("b", "2")]);
    assert!(two.matches(&request("POST", "/p", b"a=1&b=2")));
    assert!(two.matches(&request("POST", "/p", b"b=2&a=1")));
    assert!(!two.matches(&request("POST", "/p", b"a=1")));
    assert!(!two.matches(&request("POST", "/p", b"a=1&b=2&c=3")));
}

#[test]
fn a_repeated_name_in_the_body_counts_once_with_its_last_value() {
    let one = rule("/p", None, &[("k", "v")]);
    assert!(one.matches(&request("POST", "/p", b"k=x&k=v")));
    assert!(!one.matches(&request("POST", "/p", b"k=v&k=x")));
    assert!(one.matches(&request("POST", "/p", b"k=v&k=v")));
}

#[test]
fn a_repeated_pair_in_the_rule_is_counted_twice() {
    let twice = rule("/p", None, &[("k", "v"), ("k", "v")]);
    assert!(!twice.matches(&request("POST", "/p", b"k=v")));
    assert!(!twice.matches(&request("POST", "/p", b"k=v&k=v")));
    assert!(twice.matches(&request("POST", "/p", b"k=v&x=y")));
    assert!(!twice.matches(&request("POST", "/p", b"k=w&x=y")));
    assert_eq!(twice.priority(), 1);
}

#[test]
fn form_bodies_are_percent_decoded() {
    let decoded = rule("/p", None, &[("a b", "c&d=e")]);
    assert!(decoded.matches(&request("POST", "/p", b"a+b=c%26d%3De")));
    assert!(decoded.matches(&request("POST", "/p", b"a%20b=c%26d%3de")));
    assert!(!decoded.matches(&request("POST", "/p", b"a b=c&d=e")));
    assert!(decoded.check_params_match(&request("GET", "/elsewhere", b"a+b=c%26d%3De")));
}

#[test]
fn params_match_reads_the_fields_it_is_given() {
    let expected = rule("/p", None, &[("k", "v"), ("n", "")]);
    let mut fields = FormFields::new();
    assert!(!expected.params_match(&fields));
    fields.insert("k".to_string(), "v".to_string());
    assert!(!expected.params_match(&fields));
    fields.insert("n".to_string(), "".to_string());
    assert!(expected.params_match(&fields));
    fields.insert("k".to_string(), "w".to_string());
    assert!(!expected.params_match(&fields));
    fields.insert("k".to_string(), "v".to_string());
    assert!(expected.params_match(&fields));
    fields.insert("z".to_string(), "v".to_string());
    assert!(!expected.params_match(&fields));

    let req = request("PUT", "/p", b"ignored=body");
    let mut given = FormFields::new();
    given.insert("k".to_string(), "v".to_string());
    given.insert("n".to_string(), "".to_string());
    assert!(expected.matches_fields(&req, &given));
    assert!(!expected.matches(&req));
}

#[test]
fn priority_counts_the_constraints() {
    assert_eq!(rule("/p", None, &[]).priority(), 0);
    assert_eq!(rule("/p", Some(Method::GET), &[]).priority(), 1);
    assert_eq!(rule("/p", None, &[("k", "v")]).priority(), 1);
    assert_eq!(rule("/p", Some(Method::PUT), &[("k", "v"), ("l", "w")]).priority(), 2);
}

#[test]
fn matching_gives_the_same_verdict_every_time() {
    let picky = rule("/p", Some(Method::POST), &[("k", "v")]);
    let hit = request("POST", "/p", b"k=v");
    let miss = request("POST", "/p", b"k=w");
    for _ in 0..5 {
        assert!(picky.matches(&hit));
        assert!(!picky.matches(&miss));
    }
}
