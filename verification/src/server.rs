//! The server's state and the decisions of its two planes.
//!
//! The control plane creates instances and installs rules; the mock plane
//! answers a request from the first rule that matches it, and on a miss
//! either answers 404 or names the upstream to forward to. Nothing here
//! touches a socket: a handler takes a request as plain values and says what
//! to reply or what to send on.

use crate::cors::{
    allow_origin, allowing_any_origin, allows_any_origin, is_preflight, is_preflight_method,
    lemma_allowing_any_origin, lemma_preflight_allows_any_origin, preflight, preflight_headers,
    preflight_reply, star_header, with_cors,
};
use crate::form::{form_pairs, last_wins, FormFields};
use crate::hyper_helpers::{decimal, port_text, AddressView};
use crate::interchange::{
    Command, CommandView, InstallError, InstallResponse, InstanceId, InstanceResponse,
    InstanceResponseView, MockRule, MockRuleView, ThenState, ThenStateView,
};
use crate::matching::matches_fields;
use crate::proxy::{
    forwarded, request_from_proxy, upstream_of, ProxyError, ProxyRequest, ProxyRequestView,
};
use crate::request::{text_eq, Header, Reply, ReplyView, UnpackedRequest, UnpackedRequestView};
use crate::rules::{
    by_priority, first_match, installed, lemma_first_match, lemma_installed_by_priority,
    place_for, rule_views,
};
use vstd::prelude::*;
use vstd::string::*;
use vstd::utf8::encode_utf8;

verus! {


/// What the mock plane does with a request that no rule answers.
#[derive(Debug, Clone, Copy, PartialEq, Eq, Structural)]
pub enum Mode {
    Mock,
    Proxy,
}

/// A reply with the given status and body, and the header that allows every
/// origin.
pub fn respond(status: u16, body: Vec<u8>) -> (reply: Reply)
    ensures
        reply@ == (ReplyView { status, headers: seq![allow_origin()], body: body@ }),
{
    let mut headers: Vec<Header> = Vec::new();
    headers.push(star_header("Access-Control-Allow-Origin"));
    assert(headers.deep_view() =~= seq![allow_origin()]);
    Reply { status, headers, body }
}

/// The reply with the given status and text.
pub open spec fn text_reply(status: u16, text: Seq<char>) -> ReplyView {
    ReplyView { status, headers: seq![allow_origin()], body: encode_utf8(text) }
}

/// A reply with the given status and text as its body.
pub fn respond_text(status: u16, text: &str) -> (reply: Reply)
    ensures
        reply@ == text_reply(status, text@),
{
    respond(status, text.as_bytes_vec())
}

/// A reply with a text allows every origin.
pub proof fn lemma_text_reply_allows_any_origin(status: u16, text: Seq<char>)
    ensures
        allows_any_origin(text_reply(status, text)),
{
    assert(seq![allow_origin()][0] == allow_origin());
}

/// The state of the server: the port of the mock plane and, once an instance
/// was created, its identifier and its rules in the order in which they are
/// tried.
#[derive(Debug)]
pub struct SequentialState {
    mock_port: u16,
    instance: Option<(InstanceId, Vec<MockRule>)>,
}

/// The view of a [`SequentialState`].
pub struct SequentialStateView {
    pub mock_port: u16,
    pub instance: Option<(Seq<char>, Seq<MockRuleView>)>,
}

impl SequentialStateView {
    /// The rules of the active instance; none without an instance.
    pub open spec fn rules(self) -> Seq<MockRuleView> {
        match self.instance {
            Some((_, rules)) => rules,
            None => Seq::empty(),
        }
    }

    /// The state after an instance with the given identifier is created:
    /// whatever was there is replaced by the new instance without rules.
    pub open spec fn created(self, id: Seq<char>) -> SequentialStateView {
        SequentialStateView { mock_port: self.mock_port, instance: Some((id, Seq::empty())) }
    }

    /// The given identifier is the one of the active instance.
    pub open spec fn accepts(self, id: Seq<char>) -> bool {
        self.instance matches Some((current, _)) && current == id
    }

    /// The state after a rule is installed under the given identifier; a
    /// state that does not accept the identifier stays as it is.
    pub open spec fn with_rule(self, id: Seq<char>, rule: MockRuleView) -> SequentialStateView {
        match self.instance {
            Some((current, rules)) if current == id => SequentialStateView {
                mock_port: self.mock_port,
                instance: Some((current, installed(rules, rule))),
            },
            _ => self,
        }
    }
}

impl View for SequentialState {
    type V = SequentialStateView;

    closed spec fn view(&self) -> SequentialStateView {
        SequentialStateView {
            mock_port: self.mock_port,
            instance: match self.instance {
                Some((id, rules)) => Some((id@, rule_views(rules@))),
                None => None,
            },
        }
    }
}

/// The address of the mock plane as clients are told it.
pub open spec fn mock_url(port: u16) -> Seq<char> {
    "http://localhost:"@ + decimal(port as nat)
}

/// Makes the identifier of a new instance with `uuid7::uuid7`, written in
/// the canonical form of 36 characters. Which identifier comes back depends
/// on the clock and on chance; the contract claims its length and no more.
#[verifier::external_body]
fn fresh_instance_id() -> (id: InstanceId)
    ensures
        id@.len() == 36,
{
    InstanceId(uuid7::uuid7().to_string())
}

/// The place of the first rule that is not more specific than the level.
fn place(rules: &Vec<MockRule>, level: u8) -> (at: usize)
    ensures
        at == place_for(rule_views(rules@), level as nat),
        at <= rules.len(),
{
    let ghost all = rule_views(rules@);
    let mut at: usize = 0;
    assert(all.skip(0) =~= all);
    while at < rules.len()
        invariant
            at <= rules.len(),
            all == rule_views(rules@),
            place_for(all, level as nat) == at + place_for(all.skip(at as int), level as nat),
        decreases rules.len() - at,
    {
        assert(all.skip(at as int)[0] == rules@[at as int]@);
        assert(all.skip(at as int).drop_first() =~= all.skip(at + 1));
        if rules[at].priority() <= level {
            return at;
        }
        at += 1;
    }
    at
}

impl SequentialState {
    #[verifier::type_invariant]
    spec fn ordered(&self) -> bool {
        match self.instance {
            Some((_, rules)) => by_priority(rule_views(rules@)),
            None => true,
        }
    }

    /// A state for a mock plane on the given port, without an instance.
    pub fn new(mock_port: u16) -> (state: SequentialState)
        ensures
            state@ == (SequentialStateView { mock_port, instance: None }),
    {
        SequentialState { mock_port, instance: None }
    }

    /// The port of the mock plane.
    pub fn mock_port(&self) -> (port: u16)
        ensures
            port == self@.mock_port,
    {
        self.mock_port
    }

    /// The number of rules of the active instance. In every state the
    /// rules stand in order of priority.
    pub fn rule_count(&self) -> (count: usize)
        ensures
            count == self@.rules().len(),
            by_priority(self@.rules()),
    {
        proof {
            use_type_invariant(self);
        }
        match &self.instance {
            Some((_, rules)) => rules.len(),
            None => 0,
        }
    }

    /// Whether the identifier is the one of the active instance.
    pub fn accepts(&self, instance: &InstanceId) -> (current: bool)
        ensures
            current == self@.accepts(instance@),
    {
        match &self.instance {
            Some((id, _)) => *id == *instance,
            None => false,
        }
    }

    /// Replaces whatever instance there is by a new one with the given
    /// identifier and no rules, and says where the mock plane listens.
    pub fn create_instance_as(&mut self, id: InstanceId) -> (response: InstanceResponse)
        ensures
            final(self)@ == old(self)@.created(id@),
            response@ == (InstanceResponseView {
                instance: id@,
                url: mock_url(old(self)@.mock_port),
            }),
    {
        let mut url = "http://localhost:".to_owned();
        let port = port_text(self.mock_port);
        url.append(port.as_str());
        let rules: Vec<MockRule> = Vec::new();
        assert(rule_views(rules@) =~= Seq::empty());
        self.instance = Some((id.clone(), rules));
        InstanceResponse { instance: id, url }
    }

    /// Replaces whatever instance there is by a new one without rules, under
    /// a fresh identifier, and says where the mock plane listens.
    pub fn create_instance(&mut self) -> (response: InstanceResponse)
        ensures
            final(self)@ == old(self)@.created(response@.instance),
            response@.url == mock_url(old(self)@.mock_port),
            response@.instance.len() == 36,
    {
        self.create_instance_as(fresh_instance_id())
    }

    /// Installs a rule under the given identifier. Where the identifier is
    /// not the one of the active instance, or there is no instance, nothing
    /// changes and the rule is refused.
    pub fn install_mock(&mut self, instance: &InstanceId, mock: MockRule) -> (done: Result<
        InstallResponse,
        InstallError,
    >)
        ensures
            final(self)@ == old(self)@.with_rule(instance@, mock@),
            by_priority(final(self)@.rules()),
            old(self)@.accepts(instance@) ==> done == Ok::<InstallResponse, InstallError>(
                InstallResponse,
            ),
            !old(self)@.accepts(instance@) ==> done == Err::<InstallResponse, InstallError>(
                InstallError::InstanceNotFound,
            ) && final(self)@ == old(self)@,
    {
        proof {
            use_type_invariant(&*self);
        }
        let mut current: Option<(InstanceId, Vec<MockRule>)> = None;
        std::mem::swap(&mut self.instance, &mut current);
        match current {
            Some((id, mut rules)) => {
                if id == *instance {
                    let ghost before = rule_views(rules@);
                    let at = place(&rules, mock.priority());
                    proof {
                        lemma_installed_by_priority(before, mock@);
                    }
                    rules.insert(at, mock);
                    assert(rule_views(rules@) =~= installed(before, mock@));
                    self.instance = Some((id, rules));
                    Ok(InstallResponse)
                } else {
                    self.instance = Some((id, rules));
                    Err(InstallError::InstanceNotFound)
                }
            },
            None => Err(InstallError::InstanceNotFound),
        }
    }
}

/// What the control plane did with a request.
#[derive(Debug)]
pub enum ControlOutcome {
    /// An instance was created.
    Created(InstanceResponse),
    /// A rule was installed.
    Installed(InstallResponse),
    /// A rule was refused.
    Refused(InstallError),
    /// The body was no command.
    BadRequest,
    /// The request was not `POST /`.
    NotFound,
    /// The request was a preflight.
    Preflight,
}

/// The view of a [`ControlOutcome`].
pub enum ControlOutcomeView {
    Created(InstanceResponseView),
    Installed,
    Refused(InstallError),
    BadRequest,
    NotFound,
    Preflight,
}

impl View for ControlOutcome {
    type V = ControlOutcomeView;

    open spec fn view(&self) -> ControlOutcomeView {
        match self {
            ControlOutcome::Created(response) => ControlOutcomeView::Created(response@),
            ControlOutcome::Installed(_) => ControlOutcomeView::Installed,
            ControlOutcome::Refused(error) => ControlOutcomeView::Refused(*error),
            ControlOutcome::BadRequest => ControlOutcomeView::BadRequest,
            ControlOutcome::NotFound => ControlOutcomeView::NotFound,
            ControlOutcome::Preflight => ControlOutcomeView::Preflight,
        }
    }
}

impl ControlOutcomeView {
    /// The status of the reply: 200 for a command that was carried out and
    /// for a preflight, 400 for a command that was refused or could not be
    /// read, 404 for anything else but `POST /`.
    pub open spec fn status(self) -> u16 {
        match self {
            ControlOutcomeView::Created(_) => 200,
            ControlOutcomeView::Installed => 200,
            ControlOutcomeView::Refused(_) => 400,
            ControlOutcomeView::BadRequest => 400,
            ControlOutcomeView::NotFound => 404,
            ControlOutcomeView::Preflight => 200,
        }
    }

    /// The body of the reply: a fixed text or nothing where there is nothing
    /// to serialise, else the JSON that the caller made of the outcome.
    pub open spec fn body(self, json: Seq<u8>) -> Seq<u8> {
        match self {
            ControlOutcomeView::BadRequest => encode_utf8("Bad Request"@),
            ControlOutcomeView::NotFound => encode_utf8("Not Found"@),
            ControlOutcomeView::Preflight => Seq::empty(),
            _ => json,
        }
    }

    /// The reply for the outcome: status and body as above; the header
    /// lines of a preflight reply for a preflight, else the one line that
    /// allows every origin.
    pub open spec fn reply(self, json: Seq<u8>) -> ReplyView {
        ReplyView {
            status: self.status(),
            headers: if self is Preflight {
                preflight_headers()
            } else {
                seq![allow_origin()]
            },
            body: self.body(json),
        }
    }
}

impl ControlOutcome {
    /// The status of the reply.
    pub fn status(&self) -> (status: u16)
        ensures
            status == self@.status(),
    {
        match self {
            ControlOutcome::Created(_) => 200,
            ControlOutcome::Installed(_) => 200,
            ControlOutcome::Refused(_) => 400,
            ControlOutcome::BadRequest => 400,
            ControlOutcome::NotFound => 404,
            ControlOutcome::Preflight => 200,
        }
    }

    /// The reply for the outcome. `json` is the serialised response or error
    /// of an outcome that carries one; it is not read for the others.
    pub fn reply(&self, json: Vec<u8>) -> (reply: Reply)
        ensures
            reply@ == self@.reply(json@),
            allows_any_origin(reply@),
    {
        proof {
            lemma_preflight_allows_any_origin();
            assert(seq![allow_origin()][0] == allow_origin());
        }
        match self {
            ControlOutcome::BadRequest => respond_text(400, "Bad Request"),
            ControlOutcome::NotFound => respond_text(404, "Not Found"),
            ControlOutcome::Preflight => preflight(),
            _ => respond(self.status(), json),
        }
    }
}

/// The state after a command; `fresh` is the identifier that a new instance
/// gets.
pub open spec fn state_after(
    state: SequentialStateView,
    command: CommandView,
    fresh: Seq<char>,
) -> SequentialStateView {
    match command {
        CommandView::CreateInstance => state.created(fresh),
        CommandView::InstallMock { instance, mock } => state.with_rule(instance, mock),
    }
}

/// The outcome of a command in a state; `fresh` is the identifier that a new
/// instance gets.
pub open spec fn outcome_of(
    state: SequentialStateView,
    command: CommandView,
    fresh: Seq<char>,
) -> ControlOutcomeView {
    match command {
        CommandView::CreateInstance => ControlOutcomeView::Created(
            InstanceResponseView { instance: fresh, url: mock_url(state.mock_port) },
        ),
        CommandView::InstallMock { instance, mock } => if state.accepts(instance) {
            ControlOutcomeView::Installed
        } else {
            ControlOutcomeView::Refused(InstallError::InstanceNotFound)
        },
    }
}

/// The view of what was read from a body: `None` for a body that is no
/// command.
pub open spec fn command_view(command: Option<Command>) -> Option<CommandView> {
    match command {
        Some(command) => Some(command@),
        None => None,
    }
}

/// A step of the control plane: what was read from the body, the state
/// before and after, and the outcome. A body that is no command is a bad
/// request and changes nothing. A command is carried out as [`state_after`]
/// and [`outcome_of`] say, with the identifier that the outcome tells as the
/// one of a new instance.
pub open spec fn carried_out(
    before: SequentialStateView,
    command: Option<CommandView>,
    after: SequentialStateView,
    outcome: ControlOutcomeView,
) -> bool {
    match command {
        None => outcome == ControlOutcomeView::BadRequest && after == before,
        Some(command) => {
            let fresh = match outcome {
                ControlOutcomeView::Created(response) => response.instance,
                _ => Seq::empty(),
            };
            after == state_after(before, command, fresh) && outcome == outcome_of(
                before,
                command,
                fresh,
            )
        },
    }
}

/// The control plane takes commands at `POST /` and nowhere else.
pub open spec fn control_route(method: Seq<char>, path: Seq<char>) -> bool {
    method == "POST"@ && path == "/"@
}

/// Whether a request line is the one at which the control plane takes
/// commands.
pub fn is_control_route(method: &str, path: &str) -> (routed: bool)
    ensures
        routed == control_route(method@, path@),
{
    text_eq(method, "POST") && text_eq(path, "/")
}

/// Carries out a command; a new instance gets the identifier `fresh`.
pub fn handle_command(state: &mut SequentialState, command: Command, fresh: InstanceId) -> (outcome:
    ControlOutcome)
    ensures
        final(state)@ == state_after(old(state)@, command@, fresh@),
        outcome@ == outcome_of(old(state)@, command@, fresh@),
        by_priority(final(state)@.rules()),
{
    match command {
        Command::CreateInstance => {
            let response = state.create_instance_as(fresh);
            assert(by_priority(state@.rules()));
            ControlOutcome::Created(response)
        },
        Command::InstallMock { instance, mock } => {
            match state.install_mock(&instance, mock) {
                Ok(done) => ControlOutcome::Installed(done),
                Err(error) => ControlOutcome::Refused(error),
            }
        },
    }
}

/// Carries out what was read from the body of a `POST /`: `None` stands for
/// a body that is no command, and changes nothing. A new instance gets an
/// identifier that was not handed out before; the reply tells it.
pub fn handle_control_plane(state: &mut SequentialState, command: Option<Command>) -> (outcome:
    ControlOutcome)
    ensures
        by_priority(final(state)@.rules()),
        carried_out(old(state)@, command_view(command), final(state)@, outcome@),
{
    match command {
        Some(command) => {
            let fresh = match &command {
                Command::CreateInstance => fresh_instance_id(),
                Command::InstallMock { .. } => InstanceId::new(String::new()),
            };
            handle_command(state, command, fresh)
        },
        None => {
            proof {
                use_type_invariant(&*state);
            }
            ControlOutcome::BadRequest
        },
    }
}

/// The control plane: a request that is not `POST /` is not found and
/// changes nothing; the command of one that is gets carried out.
pub fn control_handler(
    state: &mut SequentialState,
    method: &str,
    path: &str,
    command: Option<Command>,
) -> (outcome: ControlOutcome)
    ensures
        by_priority(final(state)@.rules()),
        !control_route(method@, path@) ==> outcome@ == ControlOutcomeView::NotFound
            && final(state)@ == old(state)@,
        control_route(method@, path@) ==> carried_out(
            old(state)@,
            command_view(command),
            final(state)@,
            outcome@,
        ),
{
    if is_control_route(method, path) {
        handle_control_plane(state, command)
    } else {
        proof {
            use_type_invariant(&*state);
        }
        ControlOutcome::NotFound
    }
}

/// The header lines of a rule as a reply carries them: each value as the
/// bytes of its text.
pub open spec fn encoded_headers(headers: Seq<(Seq<char>, Seq<char>)>) -> Seq<
    (Seq<char>, Seq<u8>),
> {
    headers.map_values(|line: (Seq<char>, Seq<char>)| (line.0, encode_utf8(line.1)))
}

/// The reply that a rule gives: its status, its header lines in order and
/// its body, made to allow every origin.
pub open spec fn rule_reply(template: ThenStateView) -> ReplyView {
    allowing_any_origin(
        ReplyView {
            status: template.status,
            headers: encoded_headers(template.headers),
            body: template.body,
        },
    )
}

/// Builds the reply that a rule gives.
pub fn reply_from(template: &ThenState) -> (reply: Reply)
    ensures
        reply@ == rule_reply(template@),
        allows_any_origin(reply@),
{
    let mut headers: Vec<Header> = Vec::new();
    let mut at: usize = 0;
    assert(headers.deep_view() =~= encoded_headers(template.headers.deep_view()).take(0));
    while at < template.headers.len()
        invariant
            at <= template.headers.len(),
            headers.deep_view() == encoded_headers(template.headers.deep_view()).take(at as int),
        decreases template.headers.len() - at,
    {
        let ghost before = headers.deep_view();
        let name = template.headers[at].0.clone();
        let value = template.headers[at].1.as_str().as_bytes_vec();
        assert(value.deep_view() =~= value@);
        headers.push((name, value));
        assert(headers.deep_view() =~= before.push((name@, value@)));
        assert(template.headers.deep_view()[at as int] == (
            template.headers@[at as int].0@,
            template.headers@[at as int].1@,
        ));
        assert(headers.deep_view() =~= encoded_headers(template.headers.deep_view()).take(
            at + 1,
        ));
        at += 1;
    }
    assert(encoded_headers(template.headers.deep_view()).take(at as int) =~= encoded_headers(
        template.headers.deep_view(),
    ));
    with_cors(Reply { status: template.status, headers, body: template.body.clone() })
}

impl SequentialState {
    /// The reply of the first rule that answers a request whose body has the
    /// given form fields; `None` where no rule answers it.
    pub fn answer_fields(&self, req: &UnpackedRequest, fields: &FormFields) -> (answer: Option<
        Reply,
    >)
        ensures
            match first_match(self@.rules(), req@, fields@) {
                Some(at) => answer matches Some(reply) && reply@ == rule_reply(
                    self@.rules()[at].then_state,
                ),
                None => answer is None,
            },
    {
        match &self.instance {
            Some((_, rules)) => {
                let mut at: usize = 0;
                while at < rules.len()
                    invariant
                        at <= rules.len(),
                        rule_views(rules@) == self@.rules(),
                        forall|j: int|
                            0 <= j < at ==> !matches_fields(
                                #[trigger] self@.rules()[j],
                                req@,
                                fields@,
                            ),
                    decreases rules.len() - at,
                {
                    assert(self@.rules()[at as int] == rules@[at as int]@);
                    if rules[at].matches_fields(req, fields) {
                        proof {
                            lemma_first_match(self@.rules(), req@, fields@);
                        }
                        return Some(reply_from(&rules[at].then_state));
                    }
                    at += 1;
                }
                proof {
                    lemma_first_match(self@.rules(), req@, fields@);
                }
                None
            },
            None => None,
        }
    }

    /// The reply of the first rule that answers the request; `None` where no
    /// rule answers it.
    pub fn answer(&self, req: &UnpackedRequest) -> (answer: Option<Reply>)
        ensures
            match first_match(self@.rules(), req@, last_wins(form_pairs(req@.body))) {
                Some(at) => answer matches Some(reply) && reply@ == rule_reply(
                    self@.rules()[at].then_state,
                ),
                None => answer is None,
            },
    {
        let fields = FormFields::parse(req.body.as_slice());
        self.answer_fields(req, &fields)
    }
}

/// What the mock plane does with a request: it replies at once, or it has
/// the request sent on to an upstream.
#[derive(Debug)]
pub enum MockOutcome {
    Reply(Reply),
    Forward(ProxyRequest),
}

/// The view of a [`MockOutcome`].
pub enum MockOutcomeView {
    Reply(ReplyView),
    Forward(ProxyRequestView),
}

impl View for MockOutcome {
    type V = MockOutcomeView;

    open spec fn view(&self) -> MockOutcomeView {
        match self {
            MockOutcome::Reply(reply) => MockOutcomeView::Reply(reply@),
            MockOutcome::Forward(request) => MockOutcomeView::Forward(request@),
        }
    }
}

/// What becomes of a request that no rule answers, given the upstream that
/// it names: in mock mode it is not found; in proxy mode it is sent on, or
/// refused for a bad `Host` header.
pub open spec fn miss_outcome(
    req: UnpackedRequestView,
    upstream: Option<AddressView>,
    mode: Mode,
) -> MockOutcomeView {
    match mode {
        Mode::Mock => MockOutcomeView::Reply(text_reply(404, "Not Found"@)),
        Mode::Proxy => match upstream {
            Some(address) => MockOutcomeView::Forward(forwarded(req, address)),
            None => MockOutcomeView::Reply(ProxyError::BadHostHeader.reply()),
        },
    }
}

/// What the mock plane does with a request whose body has the given form
/// fields and which names the given upstream: the first rule in list order
/// that answers the request gives the reply; without one the request is a
/// miss.
pub open spec fn mock_outcome(
    state: SequentialStateView,
    req: UnpackedRequestView,
    fields: Map<Seq<char>, Seq<char>>,
    upstream: Option<AddressView>,
    mode: Mode,
) -> MockOutcomeView {
    match first_match(state.rules(), req, fields) {
        Some(at) => MockOutcomeView::Reply(rule_reply(state.rules()[at].then_state)),
        None => miss_outcome(req, upstream, mode),
    }
}

/// Every reply of the mock plane allows every origin.
pub proof fn lemma_mock_outcome_allows_any_origin(
    state: SequentialStateView,
    req: UnpackedRequestView,
    fields: Map<Seq<char>, Seq<char>>,
    upstream: Option<AddressView>,
    mode: Mode,
)
    ensures
        mock_outcome(state, req, fields, upstream, mode) matches MockOutcomeView::Reply(reply)
            ==> allows_any_origin(reply),
{
    match first_match(state.rules(), req, fields) {
        Some(at) => {
            let template = state.rules()[at].then_state;
            lemma_allowing_any_origin(
                ReplyView {
                    status: template.status,
                    headers: encoded_headers(template.headers),
                    body: template.body,
                },
            );
        },
        None => {
            lemma_text_reply_allows_any_origin(404, "Not Found"@);
            lemma_text_reply_allows_any_origin(400, "Bad host header"@);
        },
    }
}

/// After an instance is created no rule answers: every request is a miss,
/// whatever was installed before.
pub proof fn lemma_created_misses(
    state: SequentialStateView,
    id: Seq<char>,
    req: UnpackedRequestView,
    fields: Map<Seq<char>, Seq<char>>,
    upstream: Option<AddressView>,
    mode: Mode,
)
    ensures
        state.created(id).rules().len() == 0,
        state.created(id).accepts(id),
        mock_outcome(state.created(id), req, fields, upstream, mode) == miss_outcome(
            req,
            upstream,
            mode,
        ),
{
}

/// A rule installed under another identifier than the one of the active
/// instance leaves every answer of the mock plane as it was.
pub proof fn lemma_stale_install_changes_nothing(
    state: SequentialStateView,
    id: Seq<char>,
    rule: MockRuleView,
)
    requires
        !state.accepts(id),
    ensures
        state.with_rule(id, rule) == state,
{
}

/// What becomes of a request that no rule answers.
pub fn miss(req: UnpackedRequest, mode: Mode) -> (outcome: MockOutcome)
    ensures
        outcome@ == miss_outcome(req@, upstream_of(req@), mode),
{
    match mode {
        Mode::Proxy => match request_from_proxy(req) {
            Ok(request) => MockOutcome::Forward(request),
            Err(error) => MockOutcome::Reply(error.to_response()),
        },
        Mode::Mock => MockOutcome::Reply(respond_text(404, "Not Found")),
    }
}

/// The mock plane: the first rule that answers the request gives the reply;
/// a request that no rule answers is a miss.
pub fn mock_handler(state: &SequentialState, req: UnpackedRequest, mode: Mode) -> (outcome:
    MockOutcome)
    ensures
        outcome@ == mock_outcome(
            state@,
            req@,
            last_wins(form_pairs(req@.body)),
            upstream_of(req@),
            mode,
        ),
        outcome matches MockOutcome::Reply(reply) ==> allows_any_origin(reply@),
{
    proof {
        lemma_mock_outcome_allows_any_origin(
            state@,
            req@,
            last_wins(form_pairs(req@.body)),
            upstream_of(req@),
            mode,
        );
    }
    match state.answer(&req) {
        Some(reply) => MockOutcome::Reply(reply),
        None => miss(req, mode),
    }
}

/// The mock plane behind the CORS policy: a preflight is answered at once,
/// every other request goes to the handler.
pub fn serve_mock(state: &SequentialState, req: UnpackedRequest, mode: Mode) -> (outcome:
    MockOutcome)
    ensures
        outcome@ == (if is_preflight(req@.method) {
            MockOutcomeView::Reply(preflight_reply())
        } else {
            mock_outcome(
                state@,
                req@,
                last_wins(form_pairs(req@.body)),
                upstream_of(req@),
                mode,
            )
        }),
        outcome matches MockOutcome::Reply(reply) ==> allows_any_origin(reply@),
{
    if is_preflight_method(req.method.as_str()) {
        MockOutcome::Reply(preflight())
    } else {
        mock_handler(state, req, mode)
    }
}

/// The control plane behind the CORS policy: a preflight is answered at once
/// and changes nothing, every other request goes to the handler.
pub fn serve_control(
    state: &mut SequentialState,
    method: &str,
    path: &str,
    command: Option<Command>,
) -> (outcome: ControlOutcome)
    ensures
        by_priority(final(state)@.rules()),
        is_preflight(method@) ==> outcome@ == ControlOutcomeView::Preflight
            && final(state)@ == old(state)@,
        !is_preflight(method@) && !control_route(method@, path@) ==> outcome@
            == ControlOutcomeView::NotFound && final(state)@ == old(state)@,
        control_route(method@, path@) ==> carried_out(
            old(state)@,
            command_view(command),
            final(state)@,
            outcome@,
        ),
{
    proof {
        reveal_strlit("OPTIONS");
        reveal_strlit("POST");
        assert("OPTIONS"@.len() != "POST"@.len());
    }
    if is_preflight_method(method) {
        proof {
            use_type_invariant(&*state);
        }
        ControlOutcome::Preflight
    } else {
        control_handler(state, method, path, command)
    }
}

} // verus!
