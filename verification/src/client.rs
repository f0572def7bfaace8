//! The client factory and the session client.
//!
//! A client never sends anything itself. [`WebClient::handle`] says what is to
//! be sent for an operation, [`WebClient::resume`] takes the answer and says
//! what comes next, and the caller does the sending in between. What the
//! client waits for travels with the caller as a [`Pending`] value, so one
//! operation runs to its end before the next begins.

use crate::endpoint::Endpoint;
use crate::error::ClientError;
use crate::operation::{rule_spec, Operation, OperationView, RuleView, STATUS_FOUND};
use crate::pairs::Pair;
use crate::request::{request_spec, HttpRequest, RequestView};
use crate::session::{lines_view, login_rule, login_rule_spec, token_spec, SessionToken};
use crate::trusted::parsed_url;
use std::collections::HashMap;
use vstd::prelude::*;

verus! {

broadcast use vstd::std_specs::hash::group_hash_axioms;

/// What the caller saw of an answer: its status, and the lines of its
/// `Set-Cookie` header where it has one.
#[derive(Debug, PartialEq, Eq)]
pub struct Response {
    pub status: u16,
    pub set_cookie: Option<Vec<String>>,
}

/// An answer with its texts as character sequences.
pub struct ResponseView {
    pub status: u16,
    pub set_cookie: Option<Seq<Seq<char>>>,
}

impl View for Response {
    type V = ResponseView;

    open spec fn view(&self) -> ResponseView {
        ResponseView { status: self.status, set_cookie: lines_view(self.set_cookie) }
    }
}

/// What a client waits for while a request is under way.
#[derive(Debug, PartialEq, Eq)]
pub enum Pending {
    /// The answer to the login of `user`. Once the session is there,
    /// `request` is sent in it, and `expected` is the status due for it.
    Login { user: u32, request: HttpRequest, expected: u16 },
    /// The answer to the operation's own request, due with status `expected`.
    Reply { expected: u16 },
}

/// A [`Pending`] with its texts as character sequences.
pub enum PendingView {
    Login { user: u32, request: RequestView, expected: u16 },
    Reply { expected: u16 },
}

impl View for Pending {
    type V = PendingView;

    open spec fn view(&self) -> PendingView {
        match *self {
            Pending::Login { user, request, expected } => PendingView::Login {
                user,
                request: request@,
                expected,
            },
            Pending::Reply { expected } => PendingView::Reply { expected },
        }
    }
}

/// What the caller is to do next.
#[derive(Debug, PartialEq, Eq)]
pub enum Step {
    /// The operation is complete.
    Done,
    /// Send `request` and hand the answer to [`WebClient::resume`], with `then`.
    Send { request: HttpRequest, then: Pending },
    /// The client has given up, for good.
    Abort(ClientError),
}

/// A [`Step`] with its texts as character sequences.
pub enum StepView {
    Done,
    Send { request: RequestView, then: PendingView },
    Abort(ClientError),
}

impl View for Step {
    type V = StepView;

    open spec fn view(&self) -> StepView {
        match *self {
            Step::Done => StepView::Done,
            Step::Send { request, then } => StepView::Send { request: request@, then: then@ },
            Step::Abort(e) => StepView::Abort(e),
        }
    }
}

/// How a client comes by the session of a user.
#[derive(Debug, PartialEq, Eq)]
pub enum SessionStep {
    /// The user has logged in before: this is the token.
    Cached(SessionToken),
    /// The user has no session yet: send this login and hand the answer to
    /// [`WebClient::admit_login`].
    Login(HttpRequest),
    /// The client has given up.
    Abort(ClientError),
}

/// A [`SessionStep`] with its texts as character sequences.
pub enum SessionStepView {
    Cached(Seq<Pair>),
    Login(RequestView),
    Abort(ClientError),
}

impl View for SessionStep {
    type V = SessionStepView;

    open spec fn view(&self) -> SessionStepView {
        match *self {
            SessionStep::Cached(token) => SessionStepView::Cached(token@),
            SessionStep::Login(request) => SessionStepView::Login(request@),
            SessionStep::Abort(e) => SessionStepView::Abort(e),
        }
    }
}

/// The state of a client: the base endpoint, the token of every user that
/// has logged in, and the error with which the client gave up, if it has.
pub struct ClientView {
    pub base: Seq<char>,
    pub sessions: Map<u32, Seq<Pair>>,
    pub failure: Option<ClientError>,
}

impl ClientView {
    /// This client after it has given up with `e`.
    pub open spec fn failed(self, e: ClientError) -> ClientView {
        ClientView { failure: Some(e), ..self }
    }

    /// This client after `step` has been handed out: an abort is final.
    pub open spec fn settled(self, step: StepView) -> ClientView {
        match step {
            StepView::Abort(e) => self.failed(e),
            _ => self,
        }
    }
}

/// The verdict on an answer: nothing to say where the observed status is the
/// expected one, protocol drift where it is any other.
pub open spec fn verdict(expected: u16, observed: u16) -> Option<ClientError> {
    if observed == expected {
        None
    } else {
        Some(ClientError::ProtocolDrift { expected, observed })
    }
}

/// What the answer to the login of `user` yields: the user's token where the
/// target redirected and set cookies that can be read, an error otherwise.
pub open spec fn login_outcome(user: u32, response: ResponseView) -> Result<
    Seq<Pair>,
    ClientError,
> {
    if response.status != STATUS_FOUND {
        Err(ClientError::Fixture { user, observed: response.status })
    } else {
        match token_spec(response.set_cookie) {
            Some(token) => Ok(token),
            None => Err(ClientError::MalformedResponse),
        }
    }
}

/// The sessions after `user` has logged in with `token`: a token that is
/// already there stays, a new one is added, and nothing else changes.
pub open spec fn remembered(sessions: Map<u32, Seq<Pair>>, user: u32, token: Seq<Pair>) -> Map<
    u32,
    Seq<Pair>,
> {
    if sessions.contains_key(user) {
        sessions
    } else {
        sessions.insert(user, token)
    }
}

/// How client `c` comes by the session of `user`.
pub open spec fn session_spec(c: ClientView, user: u32) -> SessionStepView {
    match c.failure {
        Some(e) => SessionStepView::Abort(e),
        None => if c.sessions.contains_key(user) {
            SessionStepView::Cached(c.sessions[user])
        } else {
            match request_spec(c.base, login_rule_spec(user, c.base)) {
                Some(login) => SessionStepView::Login(login),
                None => SessionStepView::Abort(ClientError::Configuration),
            }
        },
    }
}

/// The first step of an operation with the given rule on a client that has
/// not given up: the request is translated, and then sent at once, or after
/// the login that its user still needs.
pub open spec fn dispatch_spec(c: ClientView, rule: RuleView) -> StepView {
    match request_spec(c.base, rule) {
        None => StepView::Abort(ClientError::Configuration),
        Some(request) => match rule.user {
            None => StepView::Send {
                request,
                then: PendingView::Reply { expected: rule.expected },
            },
            Some(user) => match session_spec(c, user) {
                SessionStepView::Cached(token) => StepView::Send {
                    request: request.with_cookie(token),
                    then: PendingView::Reply { expected: rule.expected },
                },
                SessionStepView::Login(login) => StepView::Send {
                    request: login,
                    then: PendingView::Login { user, request, expected: rule.expected },
                },
                SessionStepView::Abort(e) => StepView::Abort(e),
            },
        },
    }
}

/// The first step of operation `op` on client `c`.
pub open spec fn start_spec(c: ClientView, op: OperationView) -> StepView {
    match c.failure {
        Some(e) => StepView::Abort(e),
        None => match rule_spec(op) {
            None => StepView::Done,
            Some(rule) => dispatch_spec(c, rule),
        },
    }
}

/// The client and the next step after `response` has answered what `pending`
/// waited for.
pub open spec fn resume_spec(c: ClientView, pending: PendingView, response: ResponseView) -> (
    ClientView,
    StepView,
) {
    match c.failure {
        Some(e) => (c, StepView::Abort(e)),
        None => match pending {
            PendingView::Reply { expected } => match verdict(expected, response.status) {
                None => (c, StepView::Done),
                Some(e) => (c.failed(e), StepView::Abort(e)),
            },
            PendingView::Login { user, request, expected } => match login_outcome(user, response) {
                Err(e) => (c.failed(e), StepView::Abort(e)),
                Ok(token) => {
                    let sessions = remembered(c.sessions, user, token);
                    (
                        ClientView { sessions, ..c },
                        StepView::Send {
                            request: request.with_cookie(sessions[user]),
                            then: PendingView::Reply { expected },
                        },
                    )
                },
            },
        },
    }
}

/// Compares the status of an answer with the one that was due.
pub fn validate(expected: u16, observed: u16) -> (r: Result<(), ClientError>)
    ensures
        match r {
            Ok(_) => verdict(expected, observed) is None,
            Err(e) => verdict(expected, observed) == Some(e),
        },
{
    if observed == expected {
        Ok(())
    } else {
        Err(ClientError::ProtocolDrift { expected, observed })
    }
}

/// Makes clients for one target. Each client it makes is on its own.
#[derive(Debug)]
pub struct WebClientSpawner {
    prefix: Endpoint,
}

impl WebClientSpawner {
    /// The serialization of the base endpoint.
    pub closed spec fn base(&self) -> Seq<char> {
        self.prefix@
    }

    /// A factory for the target at `prefix`, which must be an absolute URL:
    /// anything else is a configuration error.
    pub fn new(prefix: &str) -> (r: Result<WebClientSpawner, ClientError>)
        ensures
            match r {
                Ok(spawner) => parsed_url(prefix@) == Some(spawner.base()),
                Err(e) => e == ClientError::Configuration && parsed_url(prefix@) is None,
            },
    {
        match Endpoint::parse(prefix) {
            Some(prefix) => Ok(WebClientSpawner { prefix }),
            None => Err(ClientError::Configuration),
        }
    }

    /// A new client for the factory's target, with no session in it.
    pub fn spawn(&mut self) -> (client: WebClient)
        ensures
            final(self).base() == old(self).base(),
            client@ == (ClientView {
                base: old(self).base(),
                sessions: Map::empty(),
                failure: None,
            }),
    {
        WebClient::new(&self.prefix)
    }
}

/// The client of one worker: the base endpoint and the sessions of the users
/// on whose behalf the worker has acted so far.
#[derive(Debug)]
pub struct WebClient {
    prefix: Endpoint,
    cookies: HashMap<u32, SessionToken>,
    failure: Option<ClientError>,
}

impl View for WebClient {
    type V = ClientView;

    closed spec fn view(&self) -> ClientView {
        ClientView {
            base: self.prefix@,
            sessions: Map::new(
                |user: u32| self.cookies@.contains_key(user),
                |user: u32| self.cookies@[user]@,
            ),
            failure: self.failure,
        }
    }
}

impl WebClient {
    /// A client for the target at `prefix`, with no session in it.
    pub fn new(prefix: &Endpoint) -> (client: WebClient)
        ensures
            client@ == (ClientView { base: prefix@, sessions: Map::empty(), failure: None }),
    {
        let client = WebClient { prefix: prefix.clone(), cookies: HashMap::new(), failure: None };
        assert(client@.sessions =~= Map::empty());
        client
    }

    /// The number of users that have a session.
    pub fn session_count(&self) -> (n: usize)
        ensures
            n == self@.sessions.len(),
    {
        proof {
            assert(self@.sessions.dom() =~= self.cookies@.dom());
        }
        self.cookies.len()
    }

    /// The error with which this client gave up, if it has.
    pub fn failure(&self) -> (r: Option<ClientError>)
        ensures
            r == self@.failure,
    {
        self.failure
    }

    fn give_up(&mut self, e: ClientError)
        ensures
            final(self)@ == old(self)@.failed(e),
    {
        self.failure = Some(e);
    }

    /// The session of `uid`: the cached token where the user has logged in
    /// before, the login to send where not. Nothing is sent for a user whose
    /// token is cached.
    pub fn get_cookie_for(&mut self, uid: u32) -> (r: SessionStep)
        ensures
            r@ == session_spec(old(self)@, uid),
            final(self)@ == match r@ {
                SessionStepView::Abort(e) => old(self)@.failed(e),
                _ => old(self)@,
            },
    {
        if let Some(e) = self.failure {
            return SessionStep::Abort(e);
        }
        match self.cookies.get(&uid) {
            Some(token) => SessionStep::Cached(token.clone()),
            None => {
                let rule = login_rule(uid, &self.prefix);
                match HttpRequest::translate(&self.prefix, &rule) {
                    Ok(login) => SessionStep::Login(login),
                    Err(e) => {
                        self.give_up(e);
                        SessionStep::Abort(e)
                    },
                }
            },
        }
    }

    /// Takes the answer to the login of `uid`. A redirect that sets cookies
    /// makes them the user's token, unless the user has one already, and the
    /// user's token is returned. Any other answer makes the client give up.
    pub fn admit_login(&mut self, uid: u32, response: &Response) -> (r: Result<
        SessionToken,
        ClientError,
    >)
        ensures
            final(self)@.base == old(self)@.base,
            match old(self)@.failure {
                Some(e) => r == Err::<SessionToken, ClientError>(e) && final(self)@ == old(self)@,
                None => match login_outcome(uid, response@) {
                    Err(e) => r == Err::<SessionToken, ClientError>(e) && final(self)@ == old(
                        self,
                    )@.failed(e),
                    Ok(token) => {
                        &&& final(self)@ == (ClientView {
                            sessions: remembered(old(self)@.sessions, uid, token),
                            ..old(self)@
                        })
                        &&& r matches Ok(held)
                        &&& held@ == final(self)@.sessions[uid]
                    },
                },
            },
    {
        if let Some(e) = self.failure {
            return Err(e);
        }
        if response.status != STATUS_FOUND {
            let e = ClientError::Fixture { user: uid, observed: response.status };
            self.give_up(e);
            return Err(e);
        }
        match SessionToken::from_set_cookie(&response.set_cookie) {
            Err(e) => {
                self.give_up(e);
                Err(e)
            },
            Ok(token) => {
                match self.cookies.get(&uid) {
                    Some(held) => Ok(held.clone()),
                    None => {
                        let copy = token.clone();
                        self.cookies.insert(uid, token);
                        assert(self@.sessions =~= old(self)@.sessions.insert(uid, copy@));
                        Ok(copy)
                    },
                }
            },
        }
    }

    /// Begins operation `op`. A login or logout is complete at once. Any
    /// other operation is translated into its request, which is to be sent
    /// as it is where the operation has no user, in the user's session where
    /// the user has one, and after the user's login where not.
    pub fn handle(&mut self, op: Operation) -> (step: Step)
        ensures
            step@ == start_spec(old(self)@, op@),
            final(self)@ == old(self)@.settled(step@),
    {
        if let Some(e) = self.failure {
            return Step::Abort(e);
        }
        let rule = match op.rule() {
            Some(rule) => rule,
            None => {
                return Step::Done;
            },
        };
        let request = match HttpRequest::translate(&self.prefix, &rule) {
            Ok(request) => request,
            Err(e) => {
                self.give_up(e);
                return Step::Abort(e);
            },
        };
        let expected = rule.expected;
        match rule.user {
            None => Step::Send { request, then: Pending::Reply { expected } },
            Some(user) => match self.get_cookie_for(user) {
                SessionStep::Cached(token) => Step::Send {
                    request: request.with_cookie(token),
                    then: Pending::Reply { expected },
                },
                SessionStep::Login(login) => Step::Send {
                    request: login,
                    then: Pending::Login { user, request, expected },
                },
                SessionStep::Abort(e) => Step::Abort(e),
            },
        }
    }

    /// Takes the answer to the request that was sent last. The answer to a
    /// login yields the user's session, in which the operation's request is
    /// sent next. The answer to the operation's request completes the
    /// operation where its status is the expected one. Any other answer makes
    /// the client give up.
    pub fn resume(&mut self, pending: Pending, response: &Response) -> (step: Step)
        ensures
            (final(self)@, step@) == resume_spec(old(self)@, pending@, response@),
    {
        if let Some(e) = self.failure {
            return Step::Abort(e);
        }
        match pending {
            Pending::Reply { expected } => match validate(expected, response.status) {
                Ok(_) => Step::Done,
                Err(e) => {
                    self.give_up(e);
                    Step::Abort(e)
                },
            },
            Pending::Login { user, request, expected } => match self.admit_login(user, response) {
                Ok(token) => Step::Send {
                    request: request.with_cookie(token),
                    then: Pending::Reply { expected },
                },
                Err(e) => Step::Abort(e),
            },
        }
    }
}

} // verus!
