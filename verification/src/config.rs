//! The settings that the service needs, and the rule for a missing one.

use crate::error::SessionError;
use vstd::prelude::*;

verus! {

/// A setting that the service reads from its environment.
#[derive(Clone, Copy, Debug, PartialEq, Eq, Structural)]
pub enum ConfigKey {
    /// Bearer token for the provider.
    AuthToken,
    /// URL of the provider's session endpoint.
    ApiEndpoint,
    /// Database host.
    DbHost,
    /// Database user.
    DbUser,
    /// Database password.
    DbPassword,
    /// Database name.
    DbName,
}

impl ConfigKey {
    /// The name of the environment variable that holds this setting.
    pub open spec fn spec_name(self) -> Seq<char> {
        match self {
            ConfigKey::AuthToken => "TRINSIC_AUTH_TOKEN"@,
            ConfigKey::ApiEndpoint => "TRINSIC_API_ENDPOINT"@,
            ConfigKey::DbHost => "DB_HOST"@,
            ConfigKey::DbUser => "DB_USER"@,
            ConfigKey::DbPassword => "DB_PASSWORD"@,
            ConfigKey::DbName => "DB_NAME"@,
        }
    }

    /// The name of the environment variable that holds this setting.
    pub fn name(&self) -> (name: &'static str)
        ensures
            name@ == self.spec_name(),
    {
        match self {
            ConfigKey::AuthToken => "TRINSIC_AUTH_TOKEN",
            ConfigKey::ApiEndpoint => "TRINSIC_API_ENDPOINT",
            ConfigKey::DbHost => "DB_HOST",
            ConfigKey::DbUser => "DB_USER",
            ConfigKey::DbPassword => "DB_PASSWORD",
            ConfigKey::DbName => "DB_NAME",
        }
    }
}

/// Insists on a setting: hands the value on, or fails with a configuration
/// error that names the missing key.
pub fn require(key: ConfigKey, value: Option<String>) -> (found: Result<String, SessionError>)
    ensures
        match value {
            Some(text) => found == Ok::<String, SessionError>(text),
            None => found == Err::<String, SessionError>(SessionError::Configuration(key)),
        },
{
    match value {
        Some(text) => Ok(text),
        None => Err(SessionError::Configuration(key)),
    }
}

} // verus!
