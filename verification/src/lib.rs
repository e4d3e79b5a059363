//! The decision core of a small session service.
//!
//! One inbound request asks an identity-verification provider for a new
//! session, stores what came back in the `session_data` relation and answers
//! with the launch URL of the newest stored row. Everything that touches the
//! network, the database or the process environment happens outside this
//! crate: the functions here decide what to ask for next and what an answer
//! means, and their contracts say so exactly.

pub mod config;
pub mod create_session;
pub mod error;
pub mod handle_session;
pub mod listener;
pub mod session_storage;
pub mod session_table;
pub mod setup_db;
pub mod world;
