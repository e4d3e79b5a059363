//! Serving one request, step by step.
//!
//! A request is served by a fixed sequence of outside work: read the provider
//! settings, ask the provider, read the database settings, connect, set the
//! relation up, insert, query. `handle_session` decides after each piece of
//! work what comes next. Whoever drives it does the work that an `Action`
//! names and hands back the `Event` that tells how it went, until the action
//! is `Action::Finish`.

use crate::create_session::{
    creator_of, request_of, response_of, CreateSession, CreateSessionResponse,
    CreateSessionResponseView, CreateSessionView, ProviderReply, ProviderReplyView,
    SessionRequest, SessionRequestView,
};
use crate::error::{outcome, report, SessionError, SessionErrorView};
use crate::session_storage::{
    connected_of, most_recent_of, storage_of, stored_of, SessionStorage, SessionStorageView,
    INSERT_SESSION, SELECT_LATEST_LAUNCH_URL,
};
use crate::setup_db::{setup_database, setup_of, CREATE_SESSION_TABLE};
use vstd::prelude::*;

verus! {

/// What is kept of a created session.
#[derive(Debug, PartialEq, Eq)]
pub struct SessionData {
    pub fail_code: Option<String>,
    pub launch_url: Option<String>,
    pub client_token: Option<String>,
}

/// The mathematical value of a `SessionData`.
pub struct SessionDataView {
    pub fail_code: Option<Seq<char>>,
    pub launch_url: Option<Seq<char>>,
    pub client_token: Option<Seq<char>>,
}

impl View for SessionData {
    type V = SessionDataView;

    open spec fn view(&self) -> SessionDataView {
        SessionDataView {
            fail_code: self.fail_code.deep_view(),
            launch_url: self.launch_url.deep_view(),
            client_token: self.client_token.deep_view(),
        }
    }
}

/// What is kept of a provider's answer: the session's fail code, the launch
/// URL and the client token, each as it came, absent where it was absent.
pub open spec fn session_data_of(response: CreateSessionResponseView) -> SessionDataView {
    SessionDataView {
        fail_code: response.session.fail_code,
        launch_url: response.launch_url,
        client_token: response.client_token,
    }
}

/// Picks from the provider's answer what is kept of the session.
pub fn process_session_response(session: CreateSessionResponse) -> (data: SessionData)
    ensures
        data@ == session_data_of(session@),
{
    SessionData {
        fail_code: session.session.fail_code,
        launch_url: session.launch_url,
        client_token: session.client_token,
    }
}

/// How far the serving of a request has come: which piece of outside work
/// is outstanding, and what has to be remembered until it is done.
#[derive(Debug, PartialEq, Eq)]
pub enum Stage {
    /// Nothing has been done yet.
    Start,
    /// The provider settings are being read.
    LoadingApiSettings,
    /// The request to the provider is under way.
    Requesting(CreateSession),
    /// The database settings are being read.
    LoadingDbSettings(SessionData),
    /// The connection to the database is being opened.
    Connecting(SessionStorage, SessionData),
    /// The connection is open, and the relation is being set up.
    SettingUp(SessionStorage, SessionData),
    /// The store is ready, and the session is being inserted.
    Storing(SessionStorage),
    /// The session is stored, and the newest launch URL is being queried.
    Querying(SessionStorage),
    /// The request has been answered.
    Done,
}

/// The mathematical value of a `Stage`.
pub enum StageView {
    Start,
    LoadingApiSettings,
    Requesting(CreateSessionView),
    LoadingDbSettings(SessionDataView),
    Connecting(SessionStorageView, SessionDataView),
    SettingUp(SessionStorageView, SessionDataView),
    Storing(SessionStorageView),
    Querying(SessionStorageView),
    Done,
}

impl View for Stage {
    type V = StageView;

    open spec fn view(&self) -> StageView {
        match *self {
            Stage::Start => StageView::Start,
            Stage::LoadingApiSettings => StageView::LoadingApiSettings,
            Stage::Requesting(creator) => StageView::Requesting(creator@),
            Stage::LoadingDbSettings(data) => StageView::LoadingDbSettings(data@),
            Stage::Connecting(storage, data) => StageView::Connecting(storage@, data@),
            Stage::SettingUp(storage, data) => StageView::SettingUp(storage@, data@),
            Stage::Storing(storage) => StageView::Storing(storage@),
            Stage::Querying(storage) => StageView::Querying(storage@),
            Stage::Done => StageView::Done,
        }
    }
}

/// What happened outside: a request came in, or a piece of work that an
/// `Action` asked for has ended.
#[derive(Debug, PartialEq, Eq)]
pub enum Event {
    /// A request came in.
    Begin,
    /// The provider settings as the environment holds them.
    ApiSettings { auth_token: Option<String>, api_endpoint: Option<String> },
    /// How the request to the provider ended.
    ProviderReplied(ProviderReply),
    /// The database settings as the environment holds them.
    DbSettings {
        host: Option<String>,
        user: Option<String>,
        password: Option<String>,
        name: Option<String>,
    },
    /// The connection was opened, or could not be, with the cause.
    Connected(Result<(), String>),
    /// The set-up statement was executed, or failed, with the cause.
    TableReady(Result<(), String>),
    /// The insert statement was executed, or failed, with the cause.
    Inserted(Result<(), String>),
    /// The query gave a launch URL, or no row, or failed, with the cause.
    Queried(Result<Option<String>, String>),
}

/// The mathematical value of an `Event`.
pub enum EventView {
    Begin,
    ApiSettings { auth_token: Option<Seq<char>>, api_endpoint: Option<Seq<char>> },
    ProviderReplied(ProviderReplyView),
    DbSettings {
        host: Option<Seq<char>>,
        user: Option<Seq<char>>,
        password: Option<Seq<char>>,
        name: Option<Seq<char>>,
    },
    Connected(Result<(), Seq<char>>),
    TableReady(Result<(), Seq<char>>),
    Inserted(Result<(), Seq<char>>),
    Queried(Result<Option<Seq<char>>, Seq<char>>),
}

impl View for Event {
    type V = EventView;

    open spec fn view(&self) -> EventView {
        match *self {
            Event::Begin => EventView::Begin,
            Event::ApiSettings { auth_token, api_endpoint } => EventView::ApiSettings {
                auth_token: auth_token.deep_view(),
                api_endpoint: api_endpoint.deep_view(),
            },
            Event::ProviderReplied(reply) => EventView::ProviderReplied(reply@),
            Event::DbSettings { host, user, password, name } => EventView::DbSettings {
                host: host.deep_view(),
                user: user.deep_view(),
                password: password.deep_view(),
                name: name.deep_view(),
            },
            Event::Connected(opened) => EventView::Connected(report(opened)),
            Event::TableReady(executed) => EventView::TableReady(report(executed)),
            Event::Inserted(executed) => EventView::Inserted(report(executed)),
            Event::Queried(queried) => EventView::Queried(report(queried)),
        }
    }
}

/// The piece of outside work that comes next.
#[derive(Debug, PartialEq, Eq)]
pub enum Action {
    /// Read the two provider settings; answer with `Event::ApiSettings`.
    LoadApiSettings,
    /// Send the request to the provider; answer with
    /// `Event::ProviderReplied`.
    Send(SessionRequest),
    /// Read the four database settings; answer with `Event::DbSettings`.
    LoadDbSettings,
    /// Open a connection with this string; answer with `Event::Connected`.
    Connect { connection: String },
    /// Execute the set-up statement; answer with `Event::TableReady`.
    SetupTable { statement: &'static str },
    /// Execute the insert statement for this record; answer with
    /// `Event::Inserted`.
    Insert { statement: &'static str, record: SessionData },
    /// Run the query for the newest launch URL; answer with
    /// `Event::Queried`.
    QueryLatest { statement: &'static str },
    /// Answer the request: with the launch URL, or with the first error
    /// that came up.
    Finish(Result<String, SessionError>),
    /// Nothing: the event was not the one that the stage waits for.
    Idle,
}

/// The mathematical value of an `Action`.
pub enum ActionView {
    LoadApiSettings,
    Send(SessionRequestView),
    LoadDbSettings,
    Connect { connection: Seq<char> },
    SetupTable { statement: Seq<char> },
    Insert { statement: Seq<char>, record: SessionDataView },
    QueryLatest { statement: Seq<char> },
    Finish(Result<Seq<char>, SessionErrorView>),
    Idle,
}

impl View for Action {
    type V = ActionView;

    open spec fn view(&self) -> ActionView {
        match *self {
            Action::LoadApiSettings => ActionView::LoadApiSettings,
            Action::Send(request) => ActionView::Send(request@),
            Action::LoadDbSettings => ActionView::LoadDbSettings,
            Action::Connect { connection } => ActionView::Connect { connection: connection@ },
            Action::SetupTable { statement } => ActionView::SetupTable { statement: statement@ },
            Action::Insert { statement, record } => ActionView::Insert {
                statement: statement@,
                record: record@,
            },
            Action::QueryLatest { statement } => ActionView::QueryLatest { statement: statement@ },
            Action::Finish(result) => ActionView::Finish(outcome(result)),
            Action::Idle => ActionView::Idle,
        }
    }
}

/// The answer to the request once the query has ended: the launch URL that
/// it gave, a missing-URL error where it gave none, or the store-read error.
pub open spec fn answer_of(queried: Result<Option<Seq<char>>, Seq<char>>) -> Result<
    Seq<char>,
    SessionErrorView,
> {
    match most_recent_of(queried) {
        Ok(Some(launch_url)) => Ok(launch_url),
        Ok(None) => Err(SessionErrorView::NoLaunchUrl),
        Err(error) => Err(error),
    }
}

/// The transition of the request: from a stage and the event that arrived
/// there to the next stage and the next piece of outside work.
///
/// Each stage waits for one kind of event. On success of the work it moves
/// on; on failure it finishes with the error of the step that failed. An
/// event that the stage does not wait for changes nothing.
pub open spec fn step(stage: StageView, event: EventView) -> (StageView, ActionView) {
    match (stage, event) {
        (StageView::Start, EventView::Begin) => (
            StageView::LoadingApiSettings,
            ActionView::LoadApiSettings,
        ),
        (StageView::LoadingApiSettings, EventView::ApiSettings { auth_token, api_endpoint }) => {
            match creator_of(auth_token, api_endpoint) {
                Ok(creator) => (
                    StageView::Requesting(creator),
                    ActionView::Send(request_of(creator)),
                ),
                Err(error) => (StageView::Done, ActionView::Finish(Err(error))),
            }
        },
        (StageView::Requesting(_), EventView::ProviderReplied(reply)) => {
            match response_of(reply) {
                Ok(response) => (
                    StageView::LoadingDbSettings(session_data_of(response)),
                    ActionView::LoadDbSettings,
                ),
                Err(error) => (StageView::Done, ActionView::Finish(Err(error))),
            }
        },
        (StageView::LoadingDbSettings(data), EventView::DbSettings { host, user, password, name }) => {
            match storage_of(host, user, password, name) {
                Ok(storage) => (
                    StageView::Connecting(storage, data),
                    ActionView::Connect { connection: storage.connection },
                ),
                Err(error) => (StageView::Done, ActionView::Finish(Err(error))),
            }
        },
        (StageView::Connecting(storage, data), EventView::Connected(opened)) => {
            match connected_of(opened) {
                Ok(()) => (
                    StageView::SettingUp(storage, data),
                    ActionView::SetupTable { statement: CREATE_SESSION_TABLE@ },
                ),
                Err(error) => (StageView::Done, ActionView::Finish(Err(error))),
            }
        },
        (StageView::SettingUp(storage, data), EventView::TableReady(executed)) => {
            match setup_of(executed) {
                Ok(()) => (
                    StageView::Storing(storage),
                    ActionView::Insert { statement: INSERT_SESSION@, record: data },
                ),
                Err(error) => (StageView::Done, ActionView::Finish(Err(error))),
            }
        },
        (StageView::Storing(storage), EventView::Inserted(executed)) => {
            match stored_of(executed) {
                Ok(()) => (
                    StageView::Querying(storage),
                    ActionView::QueryLatest { statement: SELECT_LATEST_LAUNCH_URL@ },
                ),
                Err(error) => (StageView::Done, ActionView::Finish(Err(error))),
            }
        },
        (StageView::Querying(_), EventView::Queried(queried)) => (
            StageView::Done,
            ActionView::Finish(answer_of(queried)),
        ),
        (stage, _) => (stage, ActionView::Idle),
    }
}

/// Decides what comes next in the serving of a request.
///
/// Start with `Stage::Start` and `Event::Begin`. Do the work that the
/// returned action names and call again with the returned stage and the
/// event that tells how the work went, until the action is
/// `Action::Finish`: it holds the launch URL of the newest stored session,
/// or the error of the first step that failed.
pub fn handle_session(stage: Stage, event: Event) -> (next: (Stage, Action))
    ensures
        (next.0@, next.1@) == step(stage@, event@),
{
    match stage {
        Stage::Start => match event {
            Event::Begin => (Stage::LoadingApiSettings, Action::LoadApiSettings),
            _ => (Stage::Start, Action::Idle),
        },
        Stage::LoadingApiSettings => match event {
            Event::ApiSettings { auth_token, api_endpoint } => {
                match CreateSession::new(auth_token, api_endpoint) {
                    Ok(creator) => {
                        let request = creator.request();
                        (Stage::Requesting(creator), Action::Send(request))
                    },
                    Err(error) => (Stage::Done, Action::Finish(Err(error))),
                }
            },
            _ => (Stage::LoadingApiSettings, Action::Idle),
        },
        Stage::Requesting(creator) => match event {
            Event::ProviderReplied(reply) => {
                match creator.create_session(reply) {
                    Ok(response) => (
                        Stage::LoadingDbSettings(process_session_response(response)),
                        Action::LoadDbSettings,
                    ),
                    Err(error) => (Stage::Done, Action::Finish(Err(error))),
                }
            },
            _ => (Stage::Requesting(creator), Action::Idle),
        },
        Stage::LoadingDbSettings(data) => match event {
            Event::DbSettings { host, user, password, name } => {
                match SessionStorage::new(host, user, password, name) {
                    Ok(storage) => {
                        let connection = storage.connection();
                        (Stage::Connecting(storage, data), Action::Connect { connection })
                    },
                    Err(error) => (Stage::Done, Action::Finish(Err(error))),
                }
            },
            _ => (Stage::LoadingDbSettings(data), Action::Idle),
        },
        Stage::Connecting(storage, data) => match event {
            Event::Connected(opened) => {
                match storage.connected(opened) {
                    Ok(()) => (
                        Stage::SettingUp(storage, data),
                        Action::SetupTable { statement: CREATE_SESSION_TABLE },
                    ),
                    Err(error) => (Stage::Done, Action::Finish(Err(error))),
                }
            },
            _ => (Stage::Connecting(storage, data), Action::Idle),
        },
        Stage::SettingUp(storage, data) => match event {
            Event::TableReady(executed) => {
                match setup_database(executed) {
                    Ok(()) => (
                        Stage::Storing(storage),
                        Action::Insert { statement: INSERT_SESSION, record: data },
                    ),
                    Err(error) => (Stage::Done, Action::Finish(Err(error))),
                }
            },
            _ => (Stage::SettingUp(storage, data), Action::Idle),
        },
        Stage::Storing(storage) => match event {
            Event::Inserted(executed) => {
                match storage.store_session_data(executed) {
                    Ok(()) => (
                        Stage::Querying(storage),
                        Action::QueryLatest { statement: SELECT_LATEST_LAUNCH_URL },
                    ),
                    Err(error) => (Stage::Done, Action::Finish(Err(error))),
                }
            },
            _ => (Stage::Storing(storage), Action::Idle),
        },
        Stage::Querying(storage) => match event {
            Event::Queried(queried) => {
                match storage.get_most_recent_launch_url(queried) {
                    Ok(Some(launch_url)) => (Stage::Done, Action::Finish(Ok(launch_url))),
                    Ok(None) => (Stage::Done, Action::Finish(Err(SessionError::NoLaunchUrl))),
                    Err(error) => (Stage::Done, Action::Finish(Err(error))),
                }
            },
            _ => (Stage::Querying(storage), Action::Idle),
        },
        Stage::Done => (Stage::Done, Action::Idle),
    }
}

} // verus!
