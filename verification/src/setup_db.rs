//! Setting up the relation that holds the sessions.

use crate::error::{outcome, report, SessionError, SessionErrorView};
use vstd::prelude::*;

verus! {

/// The statement that sets the relation up. It creates the relation only
/// where there is none, so it can be sent on every request.
pub const CREATE_SESSION_TABLE: &'static str =
    "CREATE TABLE IF NOT EXISTS session_data (id SERIAL PRIMARY KEY, fail_code TEXT, launch_url TEXT NOT NULL, client_token TEXT NOT NULL)";

/// What the outcome of the set-up statement means: nothing to report, or a
/// store-initialisation error with the cause that the database gave.
pub open spec fn setup_of(executed: Result<(), Seq<char>>) -> Result<(), SessionErrorView> {
    match executed {
        Ok(()) => Ok(()),
        Err(cause) => Err(SessionErrorView::StoreInit(cause)),
    }
}

/// Reads the outcome of the set-up statement.
pub fn setup_database(executed: Result<(), String>) -> (ready: Result<(), SessionError>)
    ensures
        outcome(ready) == setup_of(report(executed)),
{
    match executed {
        Ok(()) => Ok(()),
        Err(cause) => Err(SessionError::StoreInit(cause)),
    }
}

} // verus!
