//! The session creator: what is sent to the provider, and what its answer
//! means.

use crate::config::{require, ConfigKey};
use crate::error::{outcome, SessionError, SessionErrorView};
use vstd::prelude::*;

verus! {

/// The body of the request to the provider.
#[derive(Clone, Copy, Debug, PartialEq, Eq, Structural)]
pub struct CreateSessionRequest {
    /// Whether the provider is to be launched directly. The service never
    /// asks for that.
    pub launch_provider_directly: bool,
}

/// A session as the provider describes it.
#[derive(Debug, PartialEq, Eq)]
pub struct Session {
    pub id: String,
    pub state: String,
    pub fail_code: Option<String>,
}

/// The mathematical value of a `Session`.
pub struct SessionView {
    pub id: Seq<char>,
    pub state: Seq<char>,
    pub fail_code: Option<Seq<char>>,
}

impl View for Session {
    type V = SessionView;

    open spec fn view(&self) -> SessionView {
        SessionView {
            id: self.id@,
            state: self.state@,
            fail_code: self.fail_code.deep_view(),
        }
    }
}

/// What the provider answers to a request for a new session.
#[derive(Debug, PartialEq, Eq)]
pub struct CreateSessionResponse {
    pub session: Session,
    pub launch_url: Option<String>,
    pub client_token: Option<String>,
}

/// The mathematical value of a `CreateSessionResponse`.
pub struct CreateSessionResponseView {
    pub session: SessionView,
    pub launch_url: Option<Seq<char>>,
    pub client_token: Option<Seq<char>>,
}

impl View for CreateSessionResponse {
    type V = CreateSessionResponseView;

    open spec fn view(&self) -> CreateSessionResponseView {
        CreateSessionResponseView {
            session: self.session@,
            launch_url: self.launch_url.deep_view(),
            client_token: self.client_token.deep_view(),
        }
    }
}

/// One request to the provider: a POST to `endpoint`, authorised by
/// `bearer_token`, with `body` as its JSON body.
#[derive(Debug, PartialEq, Eq)]
pub struct SessionRequest {
    pub endpoint: String,
    pub bearer_token: String,
    pub body: CreateSessionRequest,
}

/// The mathematical value of a `SessionRequest`.
pub struct SessionRequestView {
    pub endpoint: Seq<char>,
    pub bearer_token: Seq<char>,
    pub body: CreateSessionRequest,
}

impl View for SessionRequest {
    type V = SessionRequestView;

    open spec fn view(&self) -> SessionRequestView {
        SessionRequestView {
            endpoint: self.endpoint@,
            bearer_token: self.bearer_token@,
            body: self.body,
        }
    }
}

/// How the one request to the provider ended.
#[derive(Debug, PartialEq, Eq)]
pub enum ProviderReply {
    /// The request could not be delivered, or no answer arrived; with the
    /// cause.
    Unreachable(String),
    /// An answer arrived whose body is no session response; with the cause.
    Malformed(String),
    /// The provider's answer.
    Session(CreateSessionResponse),
}

/// The mathematical value of a `ProviderReply`.
pub enum ProviderReplyView {
    Unreachable(Seq<char>),
    Malformed(Seq<char>),
    Session(CreateSessionResponseView),
}

impl View for ProviderReply {
    type V = ProviderReplyView;

    open spec fn view(&self) -> ProviderReplyView {
        match *self {
            ProviderReply::Unreachable(cause) => ProviderReplyView::Unreachable(cause@),
            ProviderReply::Malformed(cause) => ProviderReplyView::Malformed(cause@),
            ProviderReply::Session(response) => ProviderReplyView::Session(response@),
        }
    }
}

/// The session creator: the provider's endpoint and the token that
/// authorises requests to it.
#[derive(Debug, PartialEq, Eq)]
pub struct CreateSession {
    authorization: String,
    api_endpoint: String,
}

/// The mathematical value of a `CreateSession`.
pub struct CreateSessionView {
    pub authorization: Seq<char>,
    pub api_endpoint: Seq<char>,
}

impl View for CreateSession {
    type V = CreateSessionView;

    closed spec fn view(&self) -> CreateSessionView {
        CreateSessionView { authorization: self.authorization@, api_endpoint: self.api_endpoint@ }
    }
}

/// The creator that the two provider settings give: the token is looked at
/// first, so a missing token is reported even if the endpoint is missing too.
pub open spec fn creator_of(
    auth_token: Option<Seq<char>>,
    api_endpoint: Option<Seq<char>>,
) -> Result<CreateSessionView, SessionErrorView> {
    match (auth_token, api_endpoint) {
        (None, _) => Err(SessionErrorView::Configuration(ConfigKey::AuthToken)),
        (Some(_), None) => Err(SessionErrorView::Configuration(ConfigKey::ApiEndpoint)),
        (Some(token), Some(endpoint)) => Ok(
            CreateSessionView { authorization: token, api_endpoint: endpoint },
        ),
    }
}

/// The request that a creator sends.
pub open spec fn request_of(creator: CreateSessionView) -> SessionRequestView {
    SessionRequestView {
        endpoint: creator.api_endpoint,
        bearer_token: creator.authorization,
        body: CreateSessionRequest { launch_provider_directly: false },
    }
}

/// What a reply of the provider means: its answer, or the error that stands
/// for the way in which the request failed.
pub open spec fn response_of(reply: ProviderReplyView) -> Result<
    CreateSessionResponseView,
    SessionErrorView,
> {
    match reply {
        ProviderReplyView::Unreachable(cause) => Err(SessionErrorView::Network(cause)),
        ProviderReplyView::Malformed(cause) => Err(SessionErrorView::ResponseParse(cause)),
        ProviderReplyView::Session(response) => Ok(response),
    }
}

impl CreateSession {
    /// Makes a creator from the two provider settings as they were found in
    /// the environment. Fails with a configuration error that names the
    /// first missing setting, the token before the endpoint.
    pub fn new(auth_token: Option<String>, api_endpoint: Option<String>) -> (made: Result<
        CreateSession,
        SessionError,
    >)
        ensures
            outcome(made) == creator_of(auth_token.deep_view(), api_endpoint.deep_view()),
    {
        let authorization = match require(ConfigKey::AuthToken, auth_token) {
            Ok(token) => token,
            Err(error) => {
                return Err(error);
            },
        };
        let api_endpoint = match require(ConfigKey::ApiEndpoint, api_endpoint) {
            Ok(endpoint) => endpoint,
            Err(error) => {
                return Err(error);
            },
        };
        Ok(CreateSession { authorization, api_endpoint })
    }

    /// The one request that creates a session: a POST to the configured
    /// endpoint, authorised by the configured token, that does not ask for
    /// the provider to be launched directly.
    pub fn request(&self) -> (request: SessionRequest)
        ensures
            request@ == request_of(self@),
    {
        SessionRequest {
            endpoint: self.api_endpoint.clone(),
            bearer_token: self.authorization.clone(),
            body: CreateSessionRequest { launch_provider_directly: false },
        }
    }

    /// Reads the outcome of the request: the provider's answer as it is, a
    /// network error if the request failed in transport, a parse error if
    /// the body could not be read. Each error carries the reported cause.
    pub fn create_session(&self, reply: ProviderReply) -> (created: Result<
        CreateSessionResponse,
        SessionError,
    >)
        ensures
            outcome(created) == response_of(reply@),
    {
        match reply {
            ProviderReply::Unreachable(cause) => Err(SessionError::Network(cause)),
            ProviderReply::Malformed(cause) => Err(SessionError::ResponseParse(cause)),
            ProviderReply::Session(response) => Ok(response),
        }
    }
}

} // verus!
