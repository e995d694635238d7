use pulcinella::interchange::{
    InstallError, InstallResponse, InstanceId, Method, MockRule, ThenState, WhenRules,
};
use pulcinella::request::UnpackedRequest;
use pulcinella::server::SequentialState;

fn rule(path: &str, method: Option<Method>, form_data: &[(&str, &str)], status: u16) -> MockRule {
    MockRule {
        when: WhenRules {
            match_path: path.to_string(),
            form_data: form_data
                .iter()
                .map(|(name, value)| (name.to_string(), value.to_string()))
                .collect(),
            method,
        },
        then_state: ThenState { status, headers: vec![], body: vec![] },
    }
}

fn request(method: &str, path: &str, body: &[u8]) -> UnpackedRequest {
    UnpackedRequest {
        method: method.to_string(),
        path: path.to_string(),
        headers: vec![],
        body: body.to_vec(),
    }
}

fn status(state: &SequentialState, method: &str, path: &str, body: &[u8]) -> Option<u16> {
    state.answer(&request(method, path, body)).map(|reply| reply.status)
}

fn state_with(id: &InstanceId, rules: Vec<MockRule>) -> SequentialState {
    let mut state = SequentialState::new(4200);
    state.create_instance_as(id.clone());
    for rule in rules {
        assert_eq!(state.install_mock(id, rule), Ok(InstallResponse));
    }
    state
}

#[test]
fn the_more_specific_rule_wins_whichever_came_first() {
    let id = InstanceId::new("one".to_string());
    let general_first = state_with(
        &id,
        vec![rule("/p", None, &[], 200), rule("/p", None, &[("k", "v")], 201)],
    );
    assert_eq!(status(&general_first, "POST", "/p", b"k=v"), Some(201));
    assert_eq!(status(&general_first, "GET", "/p", b""), Some(200));

    let specific_first = state_with(
        &id,
        vec![rule("/p", None, &[("k", "v")], 201), rule("/p", None, &[], 200)],
    );
    assert_eq!(status(&specific_first, "POST", "/p", b"k=v"), Some(201));
    assert_eq!(status(&specific_first, "GET", "/p", b""), Some(200));
}

#[test]
fn two_constraints_beat_one() {
    let id = InstanceId::new("one".to_string());
    let state = state_with(
        &id,
        vec![
            rule("/p", Some(Method::POST), &[("k", "v")], 202),
            rule("/p", Some(Method::POST), &[], 201),
            rule("/p", None, &[("k", "v")], 211),
            rule("/p", None, &[], 200),
        ],
    );
    assert_eq!(status(&state, "POST", "/p", b"k=v"), Some(202));
    assert_eq!(status(&state, "PUT", "/p", b"k=v"), Some(211));
    assert_eq!(status(&state, "POST", "/p", b"k=w"), Some(201));
    assert_eq!(status(&state, "PUT", "/p", b""), Some(200));
    assert_eq!(status(&state, "PUT", "/q", b""), None);
}

#[test]
fn among_equals_the_rule_installed_last_wins() {
    let id = InstanceId::new("one".to_string());
    let state = state_with(
        &id,
        vec![
            rule("/p", None, &[], 200),
            rule("/p", None, &[], 201),
            rule("/p", None, &[], 202),
        ],
    );
    assert_eq!(state.rule_count(), 3);
    assert_eq!(status(&state, "GET", "/p", b""), Some(202));
}

#[test]
fn among_equals_the_latest_that_answers_wins() {
    let id = InstanceId::new("one".to_string());
    let state = state_with(
        &id,
        vec![
            rule("/p", None, &[], 200),
            rule("/p", None, &[], 201),
            rule("/q", None, &[], 202),
            rule("/r", None, &[], 203),
        ],
    );
    assert_eq!(status(&state, "GET", "/p", b""), Some(201));
    assert_eq!(status(&state, "GET", "/q", b""), Some(202));
    assert_eq!(status(&state, "GET", "/r", b""), Some(203));
}

#[test]
fn installing_a_rule_n_times_leaves_n_copies() {
    let id = InstanceId::new("one".to_string());
    let mut state = SequentialState::new(4200);
    state.create_instance_as(id.clone());
    for n in 1..=7 {
        assert_eq!(
            state.install_mock(&id, rule("/p", Some(Method::GET), &[], 200)),
            Ok(InstallResponse)
        );
        assert_eq!(state.rule_count(), n);
        assert_eq!(status(&state, "GET", "/p", b""), Some(200));
    }
}

#[test]
fn a_stale_identifier_changes_nothing() {
    let old = InstanceId::new("old".to_string());
    let new = InstanceId::new("new".to_string());
    let mut state = state_with(&old, vec![rule("/p", None, &[], 200)]);
    state.create_instance_as(new.clone());
    assert_eq!(state.rule_count(), 0);
    assert!(state.accepts(&new));
    assert!(!state.accepts(&old));

    assert_eq!(
        state.install_mock(&old, rule("/p", None, &[], 200)),
        Err(InstallError::InstanceNotFound)
    );
    assert_eq!(state.rule_count(), 0);
    assert_eq!(status(&state, "GET", "/p", b""), None);

    assert_eq!(state.install_mock(&new, rule("/p", None, &[], 204)), Ok(InstallResponse));
    assert_eq!(state.rule_count(), 1);
    assert_eq!(
        state.install_mock(&old, rule("/p", None, &[], 200)),
        Err(InstallError::InstanceNotFound)
    );
    assert_eq!(state.rule_count(), 1);
    assert_eq!(status(&state, "GET", "/p", b""), Some(204));
}

#[test]
fn without_an_instance_every_rule_is_refused() {
    let mut state = SequentialState::new(4200);
    assert_eq!(state.mock_port(), 4200);
    assert!(!state.accepts(&InstanceId::new(String::new())));
    assert_eq!(
        state.install_mock(&InstanceId::new(String::new()), rule("/p", None, &[], 200)),
        Err(InstallError::InstanceNotFound)
    );
    assert_eq!(state.rule_count(), 0);
}

#[test]
fn a_new_instance_starts_without_rules() {
    let id = InstanceId::new("one".to_string());
    let mut state = state_with(
        &id,
        vec![rule("/p", None, &[], 200), rule("/q", Some(Method::GET), &[], 201)],
    );
    assert_eq!(state.rule_count(), 2);
    state.create_instance_as(id.clone());
    assert_eq!(state.rule_count(), 0);
    assert_eq!(status(&state, "GET", "/p", b""), None);
    assert_eq!(status(&state, "GET", "/q", b""), None);
}

#[test]
fn identifiers_are_compared_by_their_text() {
    let id = InstanceId::new("one".to_string());
    assert_eq!(id, InstanceId::new("one".to_string()));
    assert_ne!(id, InstanceId::new("One".to_string()));
    assert_eq!(id.clone(), id);
    assert_eq!(id.as_str(), "one");
}
