//! The values exchanged between a client and the control plane.
//!
//! Every type has a view made of sequences and plain values; the contracts of
//! the rest of the crate are stated over those views.

use vstd::prelude::*;
use vstd::std_specs::cmp::PartialEqSpecImpl;

verus! {

/// The HTTP methods a rule can ask for.
#[derive(Debug, Clone, Copy, PartialEq, Eq, Structural)]
pub enum Method {
    GET,
    POST,
    DELETE,
    PUT,
}

impl Method {
    /// The method token as it stands on the request line.
    pub open spec fn token(self) -> Seq<char> {
        match self {
            Method::GET => seq!['G', 'E', 'T'],
            Method::POST => seq!['P', 'O', 'S', 'T'],
            Method::DELETE => seq!['D', 'E', 'L', 'E', 'T', 'E'],
            Method::PUT => seq!['P', 'U', 'T'],
        }
    }

    /// The method token as text.
    pub fn as_str(&self) -> (text: &'static str)
        ensures
            text@ == self.token(),
    {
        proof {
            reveal_strlit("GET");
            reveal_strlit("POST");
            reveal_strlit("DELETE");
            reveal_strlit("PUT");
        }
        match self {
            Method::GET => {
                assert("GET"@ =~= Method::GET.token());
                "GET"
            },
            Method::POST => {
                assert("POST"@ =~= Method::POST.token());
                "POST"
            },
            Method::DELETE => {
                assert("DELETE"@ =~= Method::DELETE.token());
                "DELETE"
            },
            Method::PUT => {
                assert("PUT"@ =~= Method::PUT.token());
                "PUT"
            },
        }
    }
}

/// The identifier of a test instance. Two identifiers are the same when
/// their texts are.
#[derive(Debug)]
pub struct InstanceId(pub(crate) String);

impl View for InstanceId {
    type V = Seq<char>;

    closed spec fn view(&self) -> Seq<char> {
        self.0@
    }
}

impl InstanceId {
    /// An identifier with the given text.
    pub fn new(text: String) -> (id: InstanceId)
        ensures
            id@ == text@,
    {
        InstanceId(text)
    }

    /// The text of the identifier.
    pub fn as_str(&self) -> (text: &str)
        ensures
            text@ == self@,
    {
        self.0.as_str()
    }
}

impl Clone for InstanceId {
    fn clone(&self) -> (copy: InstanceId)
        ensures
            copy@ == self@,
    {
        InstanceId(self.0.clone())
    }
}

impl PartialEq for InstanceId {
    fn eq(&self, other: &InstanceId) -> (same: bool) {
        self.0 == other.0
    }
}

impl PartialEqSpecImpl for InstanceId {
    open spec fn obeys_eq_spec() -> bool {
        true
    }

    open spec fn eq_spec(&self, other: &InstanceId) -> bool {
        self@ == other@
    }
}

/// What a request must look like for a rule to answer it.
#[derive(Debug)]
pub struct WhenRules {
    pub match_path: String,
    pub form_data: Vec<(String, String)>,
    pub method: Option<Method>,
}

/// The view of a [`WhenRules`].
pub struct WhenRulesView {
    pub match_path: Seq<char>,
    pub form_data: Seq<(Seq<char>, Seq<char>)>,
    pub method: Option<Method>,
}

impl View for WhenRules {
    type V = WhenRulesView;

    open spec fn view(&self) -> WhenRulesView {
        WhenRulesView {
            match_path: self.match_path@,
            form_data: self.form_data.deep_view(),
            method: self.method,
        }
    }
}

/// The response a rule gives.
#[derive(Debug)]
pub struct ThenState {
    pub status: u16,
    pub headers: Vec<(String, String)>,
    pub body: Vec<u8>,
}

/// The view of a [`ThenState`].
pub struct ThenStateView {
    pub status: u16,
    pub headers: Seq<(Seq<char>, Seq<char>)>,
    pub body: Seq<u8>,
}

impl View for ThenState {
    type V = ThenStateView;

    open spec fn view(&self) -> ThenStateView {
        ThenStateView {
            status: self.status,
            headers: self.headers.deep_view(),
            body: self.body@,
        }
    }
}

/// A rule: a match specification and the response to give on a match.
#[derive(Debug)]
pub struct MockRule {
    pub when: WhenRules,
    pub then_state: ThenState,
}

/// The view of a [`MockRule`].
pub struct MockRuleView {
    pub when: WhenRulesView,
    pub then_state: ThenStateView,
}

impl View for MockRule {
    type V = MockRuleView;

    open spec fn view(&self) -> MockRuleView {
        MockRuleView { when: self.when@, then_state: self.then_state@ }
    }
}

/// A command for the control plane.
#[derive(Debug)]
pub enum Command {
    CreateInstance,
    InstallMock { instance: InstanceId, mock: MockRule },
}

/// The view of a [`Command`].
pub enum CommandView {
    CreateInstance,
    InstallMock { instance: Seq<char>, mock: MockRuleView },
}

impl View for Command {
    type V = CommandView;

    open spec fn view(&self) -> CommandView {
        match self {
            Command::CreateInstance => CommandView::CreateInstance,
            Command::InstallMock { instance, mock } => CommandView::InstallMock {
                instance: instance@,
                mock: mock@,
            },
        }
    }
}

/// The answer to `CreateInstance`: the new identifier and the address of the
/// mock plane.
#[derive(Debug)]
pub struct InstanceResponse {
    pub instance: InstanceId,
    pub url: String,
}

/// The view of an [`InstanceResponse`].
pub struct InstanceResponseView {
    pub instance: Seq<char>,
    pub url: Seq<char>,
}

impl View for InstanceResponse {
    type V = InstanceResponseView;

    open spec fn view(&self) -> InstanceResponseView {
        InstanceResponseView { instance: self.instance@, url: self.url@ }
    }
}

/// The acknowledgement of an installed rule.
#[derive(Debug, Clone, Copy, PartialEq, Eq, Structural)]
pub struct InstallResponse;

/// Why a rule was not installed.
#[derive(Debug, Clone, Copy, PartialEq, Eq, Structural)]
pub enum InstallError {
    InstanceNotFound,
}

} // verus!
