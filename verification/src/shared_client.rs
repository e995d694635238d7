//! The fluent builders with which a test authors a rule.

use crate::interchange::{
    Command, CommandView, InstanceId, Method, MockRule, MockRuleView, ThenState, ThenStateView,
    WhenRules, WhenRulesView,
};
use vstd::prelude::*;
use vstd::string::*;

verus! {

/// Why the client could not do what it was asked.
#[derive(Debug, Clone, Copy, PartialEq, Eq, Structural)]
pub enum ClientError {
    FailedToConnectToMockServer,
    FailedToCreateTestInstance,
    InstanceNoLongerValid,
    FailedToInstallMockRule,
}

impl ClientError {
    /// The message of the error.
    pub open spec fn message_text(self) -> Seq<char> {
        match self {
            ClientError::FailedToConnectToMockServer => "Failed to start mock client"@,
            ClientError::FailedToCreateTestInstance => "Failed to create test instance"@,
            ClientError::InstanceNoLongerValid
                => "Mock instance has been replaced with a new instance"@,
            ClientError::FailedToInstallMockRule => "Failed to install mock rule into server"@,
        }
    }

    /// The message of the error.
    pub fn message(&self) -> (text: &'static str)
        ensures
            text@ == self.message_text(),
    {
        match self {
            ClientError::FailedToConnectToMockServer => "Failed to start mock client",
            ClientError::FailedToCreateTestInstance => "Failed to create test instance",
            ClientError::InstanceNoLongerValid
                => "Mock instance has been replaced with a new instance",
            ClientError::FailedToInstallMockRule => "Failed to install mock rule into server",
        }
    }
}

/// A client of the control plane: it knows the instance that its rules go
/// to.
pub trait MockClient {
    /// The identifier of the client's instance.
    fn instance(&self) -> &InstanceId;
}

/// Collects what a request must look like.
pub struct WhenBuilder {
    method: Option<Method>,
    match_path: String,
    form_data: Vec<(String, String)>,
}

impl View for WhenBuilder {
    type V = WhenRulesView;

    closed spec fn view(&self) -> WhenRulesView {
        WhenRulesView {
            match_path: self.match_path@,
            form_data: self.form_data.deep_view(),
            method: self.method,
        }
    }
}

/// What a builder starts from: the empty path, no form pair, no method.
pub open spec fn no_constraints() -> WhenRulesView {
    WhenRulesView { match_path: Seq::empty(), form_data: Seq::empty(), method: None }
}

impl Default for WhenBuilder {
    fn default() -> (builder: WhenBuilder)
        ensures
            builder@ == no_constraints(),
    {
        let form_data: Vec<(String, String)> = Vec::new();
        assert(form_data.deep_view() =~= Seq::empty());
        WhenBuilder { method: None, match_path: String::new(), form_data }
    }
}

impl WhenBuilder {
    /// Asks for the given path.
    pub fn path(self, path: &str) -> (builder: WhenBuilder)
        ensures
            builder@ == (WhenRulesView { match_path: path@, ..self@ }),
    {
        WhenBuilder { method: self.method, match_path: path.to_owned(), form_data: self.form_data }
    }

    /// Asks for one more form pair.
    pub fn form_data(self, name: &str, value: &str) -> (builder: WhenBuilder)
        ensures
            builder@ == (WhenRulesView {
                form_data: self@.form_data.push((name@, value@)),
                ..self@
            }),
    {
        let mut form_data = self.form_data;
        let ghost before = form_data.deep_view();
        form_data.push((name.to_owned(), value.to_owned()));
        assert(form_data.deep_view() =~= before.push((name@, value@)));
        WhenBuilder { method: self.method, match_path: self.match_path, form_data }
    }

    /// Asks for the given method.
    pub fn method(self, method: Method) -> (builder: WhenBuilder)
        ensures
            builder@ == (WhenRulesView { method: Some(method), ..self@ }),
    {
        WhenBuilder {
            method: Some(method),
            match_path: self.match_path,
            form_data: self.form_data,
        }
    }

    /// The match specification that was collected.
    pub fn build(self) -> (rules: WhenRules)
        ensures
            rules@ == self@,
    {
        WhenRules { match_path: self.match_path, form_data: self.form_data, method: self.method }
    }
}

/// Collects what a rule answers.
pub struct ThenBuilder {
    status: u16,
    headers: Vec<(String, String)>,
    body: Vec<u8>,
}

impl View for ThenBuilder {
    type V = ThenStateView;

    closed spec fn view(&self) -> ThenStateView {
        ThenStateView {
            status: self.status,
            headers: self.headers.deep_view(),
            body: self.body@,
        }
    }
}

/// What a builder starts from: status 0, no header, no body.
pub open spec fn no_response() -> ThenStateView {
    ThenStateView { status: 0, headers: Seq::empty(), body: Seq::empty() }
}

impl ThenBuilder {
    /// A builder that has collected nothing.
    pub fn new() -> (builder: ThenBuilder)
        ensures
            builder@ == no_response(),
    {
        let headers: Vec<(String, String)> = Vec::new();
        assert(headers.deep_view() =~= Seq::empty());
        ThenBuilder { status: 0, headers, body: Vec::new() }
    }

    /// Answers with the given status.
    pub fn status(self, status: u16) -> (builder: ThenBuilder)
        ensures
            builder@ == (ThenStateView { status, ..self@ }),
    {
        ThenBuilder { status, headers: self.headers, body: self.body }
    }

    /// Answers with one more header line.
    pub fn header(self, name: &str, value: &str) -> (builder: ThenBuilder)
        ensures
            builder@ == (ThenStateView { headers: self@.headers.push((name@, value@)), ..self@ }),
    {
        let mut headers = self.headers;
        let ghost before = headers.deep_view();
        headers.push((name.to_owned(), value.to_owned()));
        assert(headers.deep_view() =~= before.push((name@, value@)));
        ThenBuilder { status: self.status, headers, body: self.body }
    }

    /// Answers with the given body.
    pub fn body(self, body: Vec<u8>) -> (builder: ThenBuilder)
        ensures
            builder@ == (ThenStateView { body: body@, ..self@ }),
    {
        ThenBuilder { status: self.status, headers: self.headers, body }
    }

    /// The rule made of a match specification and of what was collected.
    pub fn build(self, when_rules: WhenRules) -> (state: WhenThenState)
        ensures
            state@ == (MockRuleView { when: when_rules@, then_state: self@ }),
    {
        let then_state = ThenState { status: self.status, headers: self.headers, body: self.body };
        WhenThenState { when_rules, then_state }
    }
}

/// A rule that is complete and not yet sent.
pub struct WhenThenState {
    when_rules: WhenRules,
    then_state: ThenState,
}

impl View for WhenThenState {
    type V = MockRuleView;

    closed spec fn view(&self) -> MockRuleView {
        MockRuleView { when: self.when_rules@, then_state: self.then_state@ }
    }
}

/// A rule in the making, for the instance of a client. `State` is what was
/// collected so far.
pub struct MockBuilder<'a, State, C: MockClient> {
    state: State,
    client: &'a C,
}

impl<'a, State, C: MockClient> MockBuilder<'a, State, C> {
    /// What was collected so far.
    pub closed spec fn state(&self) -> State {
        self.state
    }

    /// The client whose instance the rule goes to.
    pub closed spec fn client(&self) -> &'a C {
        self.client
    }
}

impl<'a, C: MockClient> MockBuilder<'a, WhenRules, C> {
    /// A rule for the client's instance that so far has a match
    /// specification.
    pub fn new(client: &'a C, when_rules: WhenRules) -> (builder: MockBuilder<'a, WhenRules, C>)
        ensures
            builder.state() == when_rules,
            builder.client() == client,
    {
        MockBuilder { state: when_rules, client }
    }

    /// Completes the rule with what `respond` collects in a fresh
    /// [`ThenBuilder`].
    pub fn and_then<F>(self, respond: F) -> (builder: MockBuilder<'a, WhenThenState, C>) where
        F: FnOnce(ThenBuilder) -> ThenBuilder,

        requires
            forall|fresh: ThenBuilder| fresh@ == no_response() ==> respond.requires((fresh,)),
        ensures
            builder.client() == self.client(),
            builder.state()@.when == self.state()@,
            exists|fresh: ThenBuilder, collected: ThenBuilder|
                fresh@ == no_response() && respond.ensures((fresh,), collected)
                    && builder.state()@.then_state == collected@,
    {
        let fresh = ThenBuilder::new();
        let collected = respond(fresh);
        MockBuilder { state: collected.build(self.state), client: self.client }
    }
}

impl<'a, C: MockClient> MockBuilder<'a, WhenThenState, C> {
    /// The command that installs the rule in the instance that the client
    /// names.
    pub fn command(self) -> (command: Command)
        ensures
            command@ matches CommandView::InstallMock { instance, mock } && mock == self.state()@
                && exists|id: &InstanceId|
                call_ensures(C::instance, (self.client(),), id) && id@ == instance,
    {
        Command::InstallMock {
            mock: MockRule { when: self.state.when_rules, then_state: self.state.then_state },
            instance: self.client.instance().clone(),
        }
    }
}

} // verus!
