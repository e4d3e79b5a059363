//! The session store: how the database is reached, what is sent to it, and
//! what its answers mean.

use crate::config::{require, ConfigKey};
use crate::error::{outcome, report, SessionError, SessionErrorView};
use crate::handle_session::{SessionData, SessionDataView};
use vstd::prelude::*;
use vstd::string::*;

verus! {

/// The statement that inserts one session. Its parameters are those that
/// `insert_parameters` gives.
pub const INSERT_SESSION: &'static str =
    "INSERT INTO session_data (fail_code, launch_url, client_token) VALUES ($1, $2, $3)";

/// The statement that selects the launch URL of the row with the highest
/// identifier.
pub const SELECT_LATEST_LAUNCH_URL: &'static str =
    "SELECT launch_url FROM session_data ORDER BY id DESC LIMIT 1";

/// The session store: the database that holds the sessions, named by the
/// string that a connection to it is opened with.
#[derive(Debug, PartialEq, Eq)]
pub struct SessionStorage {
    connection: String,
}

/// The mathematical value of a `SessionStorage`.
pub struct SessionStorageView {
    pub connection: Seq<char>,
}

impl View for SessionStorage {
    type V = SessionStorageView;

    closed spec fn view(&self) -> SessionStorageView {
        SessionStorageView { connection: self.connection@ }
    }
}

/// The string that a connection is opened with: the four settings, each
/// behind its keyword, separated by single spaces.
pub open spec fn connection_string(
    host: Seq<char>,
    user: Seq<char>,
    password: Seq<char>,
    name: Seq<char>,
) -> Seq<char> {
    "host="@ + host + " user="@ + user + " password="@ + password + " dbname="@ + name
}

/// The store that the four database settings give. They are looked at in
/// the order host, user, password, name, and the first missing one is
/// reported.
pub open spec fn storage_of(
    host: Option<Seq<char>>,
    user: Option<Seq<char>>,
    password: Option<Seq<char>>,
    name: Option<Seq<char>>,
) -> Result<SessionStorageView, SessionErrorView> {
    if host is None {
        Err(SessionErrorView::Configuration(ConfigKey::DbHost))
    } else if user is None {
        Err(SessionErrorView::Configuration(ConfigKey::DbUser))
    } else if password is None {
        Err(SessionErrorView::Configuration(ConfigKey::DbPassword))
    } else if name is None {
        Err(SessionErrorView::Configuration(ConfigKey::DbName))
    } else {
        Ok(
            SessionStorageView {
                connection: connection_string(host->0, user->0, password->0, name->0),
            },
        )
    }
}

/// What the outcome of opening the connection means.
pub open spec fn connected_of(opened: Result<(), Seq<char>>) -> Result<(), SessionErrorView> {
    match opened {
        Ok(()) => Ok(()),
        Err(cause) => Err(SessionErrorView::StoreInit(cause)),
    }
}

/// What the outcome of the insert means.
pub open spec fn stored_of(executed: Result<(), Seq<char>>) -> Result<(), SessionErrorView> {
    match executed {
        Ok(()) => Ok(()),
        Err(cause) => Err(SessionErrorView::StoreWrite(cause)),
    }
}

/// What the outcome of the query means.
pub open spec fn most_recent_of(queried: Result<Option<Seq<char>>, Seq<char>>) -> Result<
    Option<Seq<char>>,
    SessionErrorView,
> {
    match queried {
        Ok(launch_url) => Ok(launch_url),
        Err(cause) => Err(SessionErrorView::StoreRead(cause)),
    }
}

/// The parameters of `INSERT_SESSION` for a record, in the order of the
/// statement's placeholders: fail code, launch URL, client token.
pub open spec fn insert_parameters_of(record: SessionDataView) -> Seq<Option<Seq<char>>> {
    seq![record.fail_code, record.launch_url, record.client_token]
}

/// The parameters of `INSERT_SESSION` for a record, in the order of the
/// statement's placeholders. An absent field is sent as it is, as a null.
pub fn insert_parameters(record: SessionData) -> (parameters: Vec<Option<String>>)
    ensures
        parameters.deep_view() == insert_parameters_of(record@),
{
    let mut parameters: Vec<Option<String>> = Vec::new();
    parameters.push(record.fail_code);
    parameters.push(record.launch_url);
    parameters.push(record.client_token);
    parameters
}

impl SessionStorage {
    /// Makes a store from the four database settings as they were found in
    /// the environment. Fails with a configuration error that names the
    /// first missing setting, in the order host, user, password, name.
    pub fn new(
        host: Option<String>,
        user: Option<String>,
        password: Option<String>,
        name: Option<String>,
    ) -> (made: Result<SessionStorage, SessionError>)
        ensures
            outcome(made) == storage_of(
                host.deep_view(),
                user.deep_view(),
                password.deep_view(),
                name.deep_view(),
            ),
    {
        let host = match require(ConfigKey::DbHost, host) {
            Ok(host) => host,
            Err(error) => {
                return Err(error);
            },
        };
        let user = match require(ConfigKey::DbUser, user) {
            Ok(user) => user,
            Err(error) => {
                return Err(error);
            },
        };
        let password = match require(ConfigKey::DbPassword, password) {
            Ok(password) => password,
            Err(error) => {
                return Err(error);
            },
        };
        let name = match require(ConfigKey::DbName, name) {
            Ok(name) => name,
            Err(error) => {
                return Err(error);
            },
        };
        let mut connection = String::from_str("host=");
        connection.append(host.as_str());
        connection.append(" user=");
        connection.append(user.as_str());
        connection.append(" password=");
        connection.append(password.as_str());
        connection.append(" dbname=");
        connection.append(name.as_str());
        Ok(SessionStorage { connection })
    }

    /// The string that a connection to the database is opened with.
    pub fn connection(&self) -> (connection: String)
        ensures
            connection@ == self@.connection,
    {
        self.connection.clone()
    }

    /// Reads the outcome of opening the connection: nothing to report, or a
    /// store-initialisation error with the cause.
    pub fn connected(&self, opened: Result<(), String>) -> (ready: Result<(), SessionError>)
        ensures
            outcome(ready) == connected_of(report(opened)),
    {
        match opened {
            Ok(()) => Ok(()),
            Err(cause) => Err(SessionError::StoreInit(cause)),
        }
    }

    /// Reads the outcome of inserting a session: nothing to report, or a
    /// store-write error with the cause.
    pub fn store_session_data(&self, executed: Result<(), String>) -> (stored: Result<
        (),
        SessionError,
    >)
        ensures
            outcome(stored) == stored_of(report(executed)),
    {
        match executed {
            Ok(()) => Ok(()),
            Err(cause) => Err(SessionError::StoreWrite(cause)),
        }
    }

    /// Reads the outcome of the query for the newest launch URL: the URL,
    /// nothing where the relation holds no row, or a store-read error with
    /// the cause.
    pub fn get_most_recent_launch_url(&self, queried: Result<Option<String>, String>) -> (found:
        Result<Option<String>, SessionError>)
        ensures
            match most_recent_of(report(queried)) {
                Ok(launch_url) => found is Ok && found->Ok_0.deep_view() == launch_url,
                Err(error) => found is Err && found->Err_0@ == error,
            },
    {
        match queried {
            Ok(launch_url) => Ok(launch_url),
            Err(cause) => Err(SessionError::StoreRead(cause)),
        }
    }
}

} // verus!
