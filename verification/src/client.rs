//! The client of the mail service: the credentials it holds, and the steps by which it
//! sends a request and renews its access token.

use crate::request::{
    authorized, BodyView, FormField, Header, Method, RequestBody, RequestDescriptor, RequestView,
};
use crate::text::{decimal, to_decimal};
use vstd::prelude::*;
use vstd::string::*;

verus! {

/// The status with which a service turns down the access token.
pub const UNAUTHORIZED: u16 = 401;

/// What identifies this client to the mail service, and the token it holds at present.
#[derive(Debug, PartialEq, Eq)]
pub struct Credentials {
    pub oauth: CredentialsOAuth,
    pub token: CredentialsToken,
}

/// What identifies the client to the provider, and where the provider is reached. It is
/// never changed.
#[derive(Debug, PartialEq, Eq)]
pub struct CredentialsOAuth {
    pub client_id: String,
    pub project_id: String,
    pub auth_uri: String,
    pub token_uri: String,
    pub auth_provider_x509_cert_url: String,
    pub client_secret: String,
    pub redirect_uris: Vec<String>,
}

/// The token that the provider handed out. A refresh replaces the access token and
/// nothing else; when the token runs out is kept, but never acted upon.
#[derive(Debug, PartialEq, Eq)]
pub struct CredentialsToken {
    pub refresh_token: Option<String>,
    pub access_token: String,
    pub expires_in: Option<u64>,
    pub scope: String,
    pub token_type: String,
    pub refresh_token_expires_in: Option<u64>,
}

/// What a `CredentialsOAuth` holds, as mathematical values.
pub struct OAuthView {
    pub client_id: Seq<char>,
    pub project_id: Seq<char>,
    pub auth_uri: Seq<char>,
    pub token_uri: Seq<char>,
    pub auth_provider_x509_cert_url: Seq<char>,
    pub client_secret: Seq<char>,
    pub redirect_uris: Seq<Seq<char>>,
}

/// What a `CredentialsToken` holds, as mathematical values.
pub struct TokenView {
    pub refresh_token: Option<Seq<char>>,
    pub access_token: Seq<char>,
    pub expires_in: Option<u64>,
    pub scope: Seq<char>,
    pub token_type: Seq<char>,
    pub refresh_token_expires_in: Option<u64>,
}

/// What `Credentials` hold, as mathematical values.
pub struct CredentialsView {
    pub oauth: OAuthView,
    pub token: TokenView,
}

impl View for CredentialsOAuth {
    type V = OAuthView;

    open spec fn view(&self) -> OAuthView {
        OAuthView {
            client_id: self.client_id@,
            project_id: self.project_id@,
            auth_uri: self.auth_uri@,
            token_uri: self.token_uri@,
            auth_provider_x509_cert_url: self.auth_provider_x509_cert_url@,
            client_secret: self.client_secret@,
            redirect_uris: self.redirect_uris.deep_view(),
        }
    }
}

impl View for CredentialsToken {
    type V = TokenView;

    open spec fn view(&self) -> TokenView {
        TokenView {
            refresh_token: self.refresh_token.deep_view(),
            access_token: self.access_token@,
            expires_in: self.expires_in,
            scope: self.scope@,
            token_type: self.token_type@,
            refresh_token_expires_in: self.refresh_token_expires_in,
        }
    }
}

impl View for Credentials {
    type V = CredentialsView;

    open spec fn view(&self) -> CredentialsView {
        CredentialsView { oauth: self.oauth@, token: self.token@ }
    }
}

/// Why an exchange with the mail service came to nothing.
#[derive(Debug, PartialEq, Eq)]
pub enum ClientError {
    /// The credentials hold no access token.
    CredentialsUnavailable,
    /// The credentials hold no refresh token, so no new access token can be had.
    MissingRefreshToken,
    /// The token endpoint answered with a status that is not a success.
    UpstreamRejected { status: u16, body: String },
    /// A request did not get through.
    TransportFailure,
    /// The new access token is held, but could not be stored.
    PersistenceFailure,
    /// The token endpoint answered with a success, but not with a token that can be used.
    MalformedToken,
    /// An event was handed in that the exchange was not waiting for.
    OutOfTurn,
}

/// A `ClientError`, as a mathematical value.
pub enum ClientFault {
    CredentialsUnavailable,
    MissingRefreshToken,
    UpstreamRejected { status: u16, body: Seq<char> },
    TransportFailure,
    PersistenceFailure,
    MalformedToken,
    OutOfTurn,
}

impl View for ClientError {
    type V = ClientFault;

    open spec fn view(&self) -> ClientFault {
        match self {
            ClientError::CredentialsUnavailable => ClientFault::CredentialsUnavailable,
            ClientError::MissingRefreshToken => ClientFault::MissingRefreshToken,
            ClientError::UpstreamRejected { status, body } => ClientFault::UpstreamRejected {
                status: *status,
                body: body@,
            },
            ClientError::TransportFailure => ClientFault::TransportFailure,
            ClientError::PersistenceFailure => ClientFault::PersistenceFailure,
            ClientError::MalformedToken => ClientFault::MalformedToken,
            ClientError::OutOfTurn => ClientFault::OutOfTurn,
        }
    }
}

impl ClientFault {
    /// What `ClientError::message` says of the error.
    pub open spec fn text(self) -> Seq<char> {
        match self {
            ClientFault::CredentialsUnavailable => "no access token in credentials"@,
            ClientFault::MissingRefreshToken => "no refresh token in credentials"@,
            ClientFault::UpstreamRejected { status, body } => "token endpoint answered "@
                + decimal(status as nat) + ": "@ + body,
            ClientFault::TransportFailure => "request could not be sent"@,
            ClientFault::PersistenceFailure => "credentials could not be stored"@,
            ClientFault::MalformedToken => "token endpoint answered without an access token"@,
            ClientFault::OutOfTurn => "event out of turn"@,
        }
    }
}

impl ClientError {
    /// The error in words.
    pub fn message(&self) -> (message: String)
        ensures
            message@ == self@.text(),
    {
        match self {
            ClientError::CredentialsUnavailable => "no access token in credentials".to_owned(),
            ClientError::MissingRefreshToken => "no refresh token in credentials".to_owned(),
            ClientError::UpstreamRejected { status, body } => {
                let mut message = "token endpoint answered ".to_owned();
                message.append(to_decimal(*status as u32).as_str());
                message.append(": ");
                message.append(body.as_str());
                message
            },
            ClientError::TransportFailure => "request could not be sent".to_owned(),
            ClientError::PersistenceFailure => "credentials could not be stored".to_owned(),
            ClientError::MalformedToken =>
                "token endpoint answered without an access token".to_owned(),
            ClientError::OutOfTurn => "event out of turn".to_owned(),
        }
    }
}

/// How far an exchange has come.
#[derive(Debug, Clone, Copy, PartialEq, Eq, Structural)]
pub enum Phase {
    /// Nothing has been done yet.
    Ready,
    /// The request is on its way for the first time.
    AwaitingResponse,
    /// A new access token has been asked for.
    AwaitingToken,
    /// The credentials with the new access token are being stored.
    AwaitingPersistence,
    /// The request is on its way again, under the new access token.
    AwaitingRetry,
    /// The exchange is over.
    Finished,
}

/// What the token endpoint answered.
#[derive(Debug, PartialEq, Eq)]
pub struct TokenResponse {
    pub status: u16,
    pub body: String,
    /// The token that the body holds; `None` where the body holds none.
    pub token: Option<CredentialsToken>,
}

/// What happened since the last action was handed out.
#[derive(Debug, PartialEq, Eq)]
pub enum Event {
    /// The exchange is to start.
    Begin,
    /// The request was answered.
    Response { status: u16 },
    /// The token endpoint answered.
    Token(TokenResponse),
    /// The credentials were stored.
    Persisted,
    /// The credentials could not be stored.
    PersistFailed,
    /// The request did not get through.
    TransportFailed,
}

/// What a `TokenResponse` holds, as mathematical values.
pub struct TokenResponseView {
    pub status: u16,
    pub body: Seq<char>,
    pub token: Option<TokenView>,
}

impl View for TokenResponse {
    type V = TokenResponseView;

    open spec fn view(&self) -> TokenResponseView {
        TokenResponseView {
            status: self.status,
            body: self.body@,
            token: match self.token {
                Some(token) => Some(token@),
                None => None,
            },
        }
    }
}

/// An `Event`, as a mathematical value.
pub enum EventView {
    Begin,
    Response { status: u16 },
    Token(TokenResponseView),
    Persisted,
    PersistFailed,
    TransportFailed,
}

impl View for Event {
    type V = EventView;

    open spec fn view(&self) -> EventView {
        match self {
            Event::Begin => EventView::Begin,
            Event::Response { status } => EventView::Response { status: *status },
            Event::Token(response) => EventView::Token(response@),
            Event::Persisted => EventView::Persisted,
            Event::PersistFailed => EventView::PersistFailed,
            Event::TransportFailed => EventView::TransportFailed,
        }
    }
}

/// What is to be done next.
#[derive(Debug, PartialEq, Eq)]
pub enum Action {
    /// Send this request, then hand back `Response` or `TransportFailed`.
    Transmit(RequestDescriptor),
    /// Send this request to the token endpoint, then hand back `Token` or
    /// `TransportFailed`.
    RequestToken(RequestDescriptor),
    /// Store the credentials, then hand back `Persisted` or `PersistFailed`.
    Persist,
    /// The exchange is over: the response that came last, with this status, is its result.
    Deliver { status: u16 },
    /// The exchange is over: a new access token is held and stored.
    Refreshed,
    /// The exchange is over and has failed.
    Fail(ClientError),
}

/// An `Action`, as a mathematical value.
pub enum ActionView {
    Transmit(RequestView),
    RequestToken(RequestView),
    Persist,
    Deliver { status: u16 },
    Refreshed,
    Fail(ClientFault),
}

impl View for Action {
    type V = ActionView;

    open spec fn view(&self) -> ActionView {
        match self {
            Action::Transmit(request) => ActionView::Transmit(request@),
            Action::RequestToken(request) => ActionView::RequestToken(request@),
            Action::Persist => ActionView::Persist,
            Action::Deliver { status } => ActionView::Deliver { status: *status },
            Action::Refreshed => ActionView::Refreshed,
            Action::Fail(error) => ActionView::Fail(error@),
        }
    }
}

/// Where one event leaves an exchange: the credentials then held, the phase reached and
/// the action owed.
pub struct Step {
    pub credentials: CredentialsView,
    pub phase: Phase,
    pub action: ActionView,
}

/// Whether `status` reports a success.
pub open spec fn is_success(status: u16) -> bool {
    200 <= status < 300
}

/// The request that asks the token endpoint for a new access token.
pub open spec fn token_request(credentials: CredentialsView) -> RequestView {
    RequestView {
        method: Method::Post,
        url: credentials.oauth.token_uri,
        headers: seq![("Content-Type"@, "application/x-www-form-urlencoded"@)],
        body: BodyView::Form(
            seq![
                ("client_id"@, credentials.oauth.client_id),
                ("client_secret"@, credentials.oauth.client_secret),
                ("refresh_token"@, credentials.token.refresh_token.unwrap()),
                ("grant_type"@, "refresh_token"@),
            ],
        ),
    }
}

/// Whether the answer of the token endpoint holds an access token that can be used.
pub open spec fn holds_token(response: TokenResponseView) -> bool {
    response.token matches Some(token) && token.access_token.len() > 0
}

/// The credentials with the access token replaced and all else as it was.
pub open spec fn with_access_token(
    credentials: CredentialsView,
    access_token: Seq<char>,
) -> CredentialsView {
    CredentialsView { token: TokenView { access_token, ..credentials.token }, ..credentials }
}

/// The end of an exchange in failure: the credentials stay as they are.
pub open spec fn failed(credentials: CredentialsView, fault: ClientFault) -> Step {
    Step { credentials, phase: Phase::Finished, action: ActionView::Fail(fault) }
}

/// One step of a refresh. Without a refresh token it fails before anything is sent. An
/// answer of the token endpoint that is not a success is handed on with its status and
/// body. Of a token that it answers with, only the access token is taken over. The
/// credentials are then stored: where that fails the refresh fails, though the new
/// access token stays held.
pub open spec fn refresh_step(
    credentials: CredentialsView,
    phase: Phase,
    event: EventView,
) -> Step {
    match (phase, event) {
        (Phase::Ready, EventView::Begin) => if credentials.token.refresh_token is None {
            failed(credentials, ClientFault::MissingRefreshToken)
        } else {
            Step {
                credentials,
                phase: Phase::AwaitingToken,
                action: ActionView::RequestToken(token_request(credentials)),
            }
        },
        (Phase::AwaitingToken, EventView::Token(response)) => if !is_success(response.status) {
            failed(
                credentials,
                ClientFault::UpstreamRejected { status: response.status, body: response.body },
            )
        } else if holds_token(response) {
            Step {
                credentials: with_access_token(credentials, response.token.unwrap().access_token),
                phase: Phase::AwaitingPersistence,
                action: ActionView::Persist,
            }
        } else {
            failed(credentials, ClientFault::MalformedToken)
        },
        (Phase::AwaitingToken, EventView::TransportFailed) => failed(
            credentials,
            ClientFault::TransportFailure,
        ),
        (Phase::AwaitingPersistence, EventView::Persisted) => Step {
            credentials,
            phase: Phase::Finished,
            action: ActionView::Refreshed,
        },
        (Phase::AwaitingPersistence, EventView::PersistFailed) => failed(
            credentials,
            ClientFault::PersistenceFailure,
        ),
        _ => failed(credentials, ClientFault::OutOfTurn),
    }
}

/// One step of sending `request`. It goes out under the access token held. Where it is
/// turned down as unauthorized, a refresh is made and the request goes out once more
/// under the new access token; what comes back then is the result, whatever its status.
/// Any other answer is the result as it stands. A refresh that fails ends the exchange.
pub open spec fn send_step(
    credentials: CredentialsView,
    request: RequestView,
    phase: Phase,
    event: EventView,
) -> Step {
    match (phase, event) {
        (Phase::Ready, EventView::Begin) => Step {
            credentials,
            phase: Phase::AwaitingResponse,
            action: ActionView::Transmit(authorized(request, credentials.token.access_token)),
        },
        (Phase::AwaitingResponse, EventView::Response { status }) => if status == UNAUTHORIZED {
            refresh_step(credentials, Phase::Ready, EventView::Begin)
        } else {
            Step { credentials, phase: Phase::Finished, action: ActionView::Deliver { status } }
        },
        (Phase::AwaitingResponse, EventView::TransportFailed) => failed(
            credentials,
            ClientFault::TransportFailure,
        ),
        (Phase::AwaitingToken, _) | (Phase::AwaitingPersistence, _) => {
            let step = refresh_step(credentials, phase, event);
            if step.action is Refreshed {
                Step {
                    credentials: step.credentials,
                    phase: Phase::AwaitingRetry,
                    action: ActionView::Transmit(
                        authorized(request, step.credentials.token.access_token),
                    ),
                }
            } else {
                step
            }
        },
        (Phase::AwaitingRetry, EventView::Response { status }) => Step {
            credentials,
            phase: Phase::Finished,
            action: ActionView::Deliver { status },
        },
        (Phase::AwaitingRetry, EventView::TransportFailed) => failed(
            credentials,
            ClientFault::TransportFailure,
        ),
        _ => failed(credentials, ClientFault::OutOfTurn),
    }
}

/// A client of the mail service. It holds the credentials; the access token among them
/// is never empty.
pub struct GmailClient {
    credentials: Credentials,
}

impl View for GmailClient {
    type V = CredentialsView;

    /// The credentials that the client holds.
    closed spec fn view(&self) -> CredentialsView {
        self.credentials@
    }
}

impl GmailClient {
    #[verifier::type_invariant]
    spec fn holds_access_token(self) -> bool {
        self.credentials.token.access_token@.len() > 0
    }

    /// A client that holds `credentials`. Credentials without an access token are
    /// turned down.
    pub fn new(credentials: Credentials) -> (client: Result<GmailClient, ClientError>)
        ensures
            match client {
                Ok(client) => client@ == credentials@
                    && credentials.token.access_token@.len() > 0,
                Err(error) => error@ == ClientFault::CredentialsUnavailable
                    && credentials.token.access_token@.len() == 0,
            },
    {
        if credentials.token.access_token.as_str().is_empty() {
            Err(ClientError::CredentialsUnavailable)
        } else {
            Ok(GmailClient { credentials })
        }
    }

    /// The credentials that the client holds.
    pub fn credentials(&self) -> (credentials: &Credentials)
        ensures
            credentials@ == self@,
            credentials.token.access_token@.len() > 0,
    {
        proof {
            use_type_invariant(self);
        }
        &self.credentials
    }

    /// The request that asks for a new access token.
    fn refresh_request(&self, refresh_token: &String) -> (request: RequestDescriptor)
        requires
            self@.token.refresh_token == Some(refresh_token@),
        ensures
            request@ == token_request(self@),
    {
        let mut headers: Vec<Header> = Vec::new();
        headers.push(
            Header {
                name: "Content-Type".to_owned(),
                value: "application/x-www-form-urlencoded".to_owned(),
            },
        );
        let mut fields: Vec<FormField> = Vec::new();
        fields.push(
            FormField {
                name: "client_id".to_owned(),
                value: self.credentials.oauth.client_id.clone(),
            },
        );
        fields.push(
            FormField {
                name: "client_secret".to_owned(),
                value: self.credentials.oauth.client_secret.clone(),
            },
        );
        fields.push(FormField { name: "refresh_token".to_owned(), value: refresh_token.clone() });
        fields.push(
            FormField { name: "grant_type".to_owned(), value: "refresh_token".to_owned() },
        );
        let request = RequestDescriptor {
            method: Method::Post,
            url: self.credentials.oauth.token_uri.clone(),
            headers,
            body: RequestBody::Form(fields),
        };
        assert(request@.headers =~= token_request(self@).headers);
        assert(fields.deep_view() =~= token_request(self@).body->Form_0);
        request
    }

    /// One step of a refresh. Handed the phase that the refresh is in and the event that
    /// has come about, it gives the phase that the refresh is in after it and the action
    /// to take next. A refresh starts in `Ready` with `Begin` and is over with `Refreshed`
    /// or `Fail`.
    pub fn refresh_access_token(&mut self, phase: Phase, event: Event) -> (next: (Phase, Action))
        ensures
            refresh_step(old(self)@, phase, event@) == (Step {
                credentials: final(self)@,
                phase: next.0,
                action: next.1@,
            }),
    {
        match (phase, event) {
            (Phase::Ready, Event::Begin) => match &self.credentials.token.refresh_token {
                None => (Phase::Finished, Action::Fail(ClientError::MissingRefreshToken)),
                Some(refresh_token) => (
                    Phase::AwaitingToken,
                    Action::RequestToken(self.refresh_request(refresh_token)),
                ),
            },
            (Phase::AwaitingToken, Event::Token(response)) => {
                if response.status < 200 || response.status >= 300 {
                    (
                        Phase::Finished,
                        Action::Fail(
                            ClientError::UpstreamRejected {
                                status: response.status,
                                body: response.body,
                            },
                        ),
                    )
                } else {
                    match response.token {
                        Some(token) => {
                            if token.access_token.as_str().is_empty() {
                                (Phase::Finished, Action::Fail(ClientError::MalformedToken))
                            } else {
                                self.credentials.token.access_token = token.access_token;
                                (Phase::AwaitingPersistence, Action::Persist)
                            }
                        },
                        None => (Phase::Finished, Action::Fail(ClientError::MalformedToken)),
                    }
                }
            },
            (Phase::AwaitingToken, Event::TransportFailed) => (
                Phase::Finished,
                Action::Fail(ClientError::TransportFailure),
            ),
            (Phase::AwaitingPersistence, Event::Persisted) => (Phase::Finished, Action::Refreshed),
            (Phase::AwaitingPersistence, Event::PersistFailed) => (
                Phase::Finished,
                Action::Fail(ClientError::PersistenceFailure),
            ),
            _ => (Phase::Finished, Action::Fail(ClientError::OutOfTurn)),
        }
    }

    /// One step of sending `request`. Handed the phase that the exchange is in and the
    /// event that has come about, it gives the phase that the exchange is in after it and
    /// the action to take next. An exchange starts in `Ready` with `Begin` and is over
    /// with `Deliver` or `Fail`.
    pub fn send(&mut self, request: &RequestDescriptor, phase: Phase, event: Event) -> (next: (
        Phase,
        Action,
    ))
        ensures
            send_step(old(self)@, request@, phase, event@) == (Step {
                credentials: final(self)@,
                phase: next.0,
                action: next.1@,
            }),
    {
        match (phase, event) {
            (Phase::Ready, Event::Begin) => (
                Phase::AwaitingResponse,
                Action::Transmit(request.authorize(self.credentials.token.access_token.as_str())),
            ),
            (Phase::AwaitingResponse, Event::Response { status }) => {
                if status == UNAUTHORIZED {
                    self.refresh_access_token(Phase::Ready, Event::Begin)
                } else {
                    (Phase::Finished, Action::Deliver { status })
                }
            },
            (Phase::AwaitingResponse, Event::TransportFailed) => (
                Phase::Finished,
                Action::Fail(ClientError::TransportFailure),
            ),
            (Phase::AwaitingToken, event) | (Phase::AwaitingPersistence, event) => {
                match self.refresh_access_token(phase, event) {
                    (_, Action::Refreshed) => (
                        Phase::AwaitingRetry,
                        Action::Transmit(
                            request.authorize(self.credentials.token.access_token.as_str()),
                        ),
                    ),
                    next => next,
                }
            },
            (Phase::AwaitingRetry, Event::Response { status }) => (
                Phase::Finished,
                Action::Deliver { status },
            ),
            (Phase::AwaitingRetry, Event::TransportFailed) => (
                Phase::Finished,
                Action::Fail(ClientError::TransportFailure),
            ),
            _ => (Phase::Finished, Action::Fail(ClientError::OutOfTurn)),
        }
    }
}

} // verus!
