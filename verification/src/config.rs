//! The service configuration: where the records are kept and under which
//! base URL the short links are published.

use vstd::prelude::*;
use vstd::string::*;

use crate::error::AppError;

verus! {

/// The base URL that is used where none is configured.
pub open spec fn default_base_url() -> Seq<char> {
    "http://localhost:8080"@
}

/// The message of the error for a missing connection string.
pub open spec fn missing_database_url_message() -> Seq<char> {
    "DATABASE_URL must be set"@
}

/// The configuration, built once at start-up and handed to the request
/// operations.
#[derive(Debug, PartialEq, Eq)]
pub struct Config {
    /// The storage connection string.
    pub database_url: String,
    /// The prefix of every published short link.
    pub base_url: String,
}

impl Config {
    /// Builds the configuration from the two settings as they were found:
    /// the connection string is required, the base URL falls back to its
    /// default.
    ///
    /// Fails exactly when the connection string is missing.
    pub fn from_vars(database_url: Option<String>, base_url: Option<String>) -> (result: Result<
        Config,
        AppError,
    >)
        ensures
            match database_url {
                Some(url) => result matches Ok(config) && config.database_url@ == url@
                    && config.base_url@ == (match base_url {
                    Some(base) => base@,
                    None => default_base_url(),
                }),
                None => result matches Err(AppError::InternalError(msg)) && msg@
                    == missing_database_url_message(),
            },
    {
        match database_url {
            Some(url) => {
                let base = match base_url {
                    Some(base) => base,
                    None => String::from_str("http://localhost:8080"),
                };
                Ok(Config { database_url: url, base_url: base })
            },
            None => Err(AppError::InternalError(String::from_str("DATABASE_URL must be set"))),
        }
    }
}

} // verus!
