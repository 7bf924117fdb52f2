//! The two settings that the bot needs before it starts.

use vstd::prelude::*;
use vstd::string::*;

verus! {

/// The settings of a running bot.
#[derive(Debug, Clone, PartialEq, Eq)]
pub struct Settings {
    /// The credential for the gateway.
    pub token: String,
    /// Where the database is.
    pub database_url: String,
}

/// The setting whose absence keeps the bot from starting.
#[derive(Debug, Clone, Copy, PartialEq, Eq, Structural)]
pub enum SettingsError {
    MissingToken,
    MissingDatabaseUrl,
}

/// What is said about a missing setting.
pub open spec fn missing_text(e: SettingsError) -> Seq<char> {
    match e {
        SettingsError::MissingToken => "Expected a DISCORD_TOKEN in the environment"@,
        SettingsError::MissingDatabaseUrl => "Expected a DATABASE_URL in the environment"@,
    }
}

/// What starting with the given values leads to: both are required, and the
/// token is asked for first.
pub open spec fn settings_of(token: Option<String>, database_url: Option<String>) -> Result<
    Settings,
    SettingsError,
> {
    match (token, database_url) {
        (None, _) => Err(SettingsError::MissingToken),
        (Some(_), None) => Err(SettingsError::MissingDatabaseUrl),
        (Some(t), Some(u)) => Ok(Settings { token: t, database_url: u }),
    }
}

/// The settings, or the first of the two that is missing.
pub fn settings(token: Option<String>, database_url: Option<String>) -> (r: Result<
    Settings,
    SettingsError,
>)
    ensures
        r == settings_of(token, database_url),
{
    match token {
        None => Err(SettingsError::MissingToken),
        Some(t) => match database_url {
            None => Err(SettingsError::MissingDatabaseUrl),
            Some(u) => Ok(Settings { token: t, database_url: u }),
        },
    }
}

/// The largest number of database connections held at once.
pub fn max_connections() -> (n: u32)
    ensures
        n == 5,
{
    5
}

impl SettingsError {
    /// What is said about the missing setting.
    pub fn message(&self) -> (r: String)
        ensures
            r@ == missing_text(*self),
    {
        match self {
            SettingsError::MissingToken => String::from_str(
                "Expected a DISCORD_TOKEN in the environment",
            ),
            SettingsError::MissingDatabaseUrl => String::from_str(
                "Expected a DATABASE_URL in the environment",
            ),
        }
    }
}

} // verus!
