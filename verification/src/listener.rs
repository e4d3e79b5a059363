//! The listener: where it listens, and what it answers.

use crate::error::{outcome, SessionError, SessionErrorView};
use vstd::prelude::*;
use vstd::string::*;

verus! {

/// The address that the listener binds: the local host.
pub const ADDRESS: [u8; 4] = [127, 0, 0, 1];

/// The port that the listener binds.
pub const PORT: u16 = 8000;

/// The one path that the listener serves, to GET requests only.
pub const ROUTE: &'static str = "create_session";

/// The body of every answer to a request that failed. It tells the client
/// nothing of what went wrong.
pub const ERROR_BODY: &'static str = "Error creating session";

/// The status of the answer to a request that was served.
pub const STATUS_OK: u16 = 200;

/// The status of the answer to a request that failed.
pub const STATUS_INTERNAL_SERVER_ERROR: u16 = 500;

/// The answer to a request: a status and the string that makes up the JSON
/// body.
#[derive(Debug, PartialEq, Eq)]
pub struct HttpReply {
    pub status: u16,
    pub body: String,
}

/// The mathematical value of an `HttpReply`.
pub struct HttpReplyView {
    pub status: u16,
    pub body: Seq<char>,
}

impl View for HttpReply {
    type V = HttpReplyView;

    open spec fn view(&self) -> HttpReplyView {
        HttpReplyView { status: self.status, body: self.body@ }
    }
}

/// The answer that a served request gets: the launch URL with status 200,
/// or, whatever the error, the fixed error body with status 500.
pub open spec fn reply_of(served: Result<Seq<char>, SessionErrorView>) -> HttpReplyView {
    match served {
        Ok(launch_url) => HttpReplyView { status: STATUS_OK, body: launch_url },
        Err(_) => HttpReplyView { status: STATUS_INTERNAL_SERVER_ERROR, body: ERROR_BODY@ },
    }
}

/// Turns the result of serving a request into the answer to the client.
pub fn create_session_handler(served: Result<String, SessionError>) -> (reply: HttpReply)
    ensures
        reply@ == reply_of(outcome(served)),
{
    match served {
        Ok(launch_url) => HttpReply { status: STATUS_OK, body: launch_url },
        Err(_) => HttpReply {
            status: STATUS_INTERNAL_SERVER_ERROR,
            body: String::from_str(ERROR_BODY),
        },
    }
}

} // verus!
