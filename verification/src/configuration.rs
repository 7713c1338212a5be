//! The settings of the service, as far as they are decided and not read.

use vstd::prelude::*;
use vstd::string::StringExecFns;
use crate::text::{lowercase, same_text, to_lowercase};

verus! {

/// The address under which the application listens and is reached.
#[derive(Debug, Clone)]
pub struct ApplicationSettings {
    pub port: u16,
    pub host: String,
    pub base_url: String,
}

/// How strictly a database connection asks for encryption.
#[derive(Clone, Copy, Debug, PartialEq, Eq, Structural)]
pub enum SslMode {
    /// Only an encrypted connection will do.
    Require,
    /// An encrypted connection is tried first.
    Prefer,
}

/// How loudly the statements sent over a connection are logged.
#[derive(Clone, Copy, Debug, PartialEq, Eq, Structural)]
pub enum StatementLog {
    /// As the driver does by default.
    Default,
    /// At trace level.
    Trace,
}

/// Where the database is and how to sign in.
pub struct DatabaseSettings {
    pub username: String,
    pub password: String,
    pub port: u16,
    pub host: String,
    pub database_name: String,
    pub require_ssl: bool,
}

/// The options of one database connection.
pub struct ConnectOptions {
    pub host: String,
    pub username: String,
    pub password: String,
    pub port: u16,
    pub ssl_mode: SslMode,
    pub database: Option<String>,
    pub statement_log: StatementLog,
}

/// The encryption that settings ask for.
pub open spec fn ssl_mode_of(require_ssl: bool) -> SslMode {
    if require_ssl {
        SslMode::Require
    } else {
        SslMode::Prefer
    }
}

impl DatabaseSettings {
    /// The options of a connection to the server, with no database chosen.
    pub fn without_db(&self) -> (options: ConnectOptions)
        ensures
            options.host@ == self.host@,
            options.username@ == self.username@,
            options.password@ == self.password@,
            options.port == self.port,
            options.ssl_mode == ssl_mode_of(self.require_ssl),
            options.database is None,
            options.statement_log == StatementLog::Default,
    {
        let ssl_mode = if self.require_ssl {
            SslMode::Require
        } else {
            SslMode::Prefer
        };
        ConnectOptions {
            host: self.host.clone(),
            username: self.username.clone(),
            password: self.password.clone(),
            port: self.port,
            ssl_mode,
            database: None,
            statement_log: StatementLog::Default,
        }
    }

    /// The options of a connection to the database of the service, with
    /// statements logged at trace level.
    pub fn with_db(&self) -> (options: ConnectOptions)
        ensures
            options.host@ == self.host@,
            options.username@ == self.username@,
            options.password@ == self.password@,
            options.port == self.port,
            options.ssl_mode == ssl_mode_of(self.require_ssl),
            options.database matches Some(name) && name@ == self.database_name@,
            options.statement_log == StatementLog::Trace,
    {
        let mut options = self.without_db();
        options.database = Some(self.database_name.clone());
        options.statement_log = StatementLog::Trace;
        options
    }
}

/// The environment that the service runs in.
#[derive(Clone, Copy, Debug, PartialEq, Eq, Structural)]
pub enum Environment {
    Local,
    Production,
}

/// The name of an environment.
pub open spec fn environment_name(environment: Environment) -> Seq<char> {
    match environment {
        Environment::Local => "local"@,
        Environment::Production => "production"@,
    }
}

/// The environment that a lowercase text names, if any.
pub open spec fn environment_named(lower: Seq<char>) -> Option<Environment> {
    if lower == "local"@ {
        Some(Environment::Local)
    } else if lower == "production"@ {
        Some(Environment::Production)
    } else {
        None
    }
}

/// The message that reports a text naming no environment.
pub open spec fn unknown_environment_message(lower: Seq<char>) -> Seq<char> {
    lower + " is not a a supported environment. Use either 'local' or 'production'."@
}

/// The name of the file that holds the settings of an environment.
pub open spec fn config_filename_of(environment: Environment) -> Seq<char> {
    environment_name(environment) + ".yaml"@
}

impl Environment {
    /// The name of the environment.
    pub fn as_str(&self) -> (name: &'static str)
        ensures
            name@ == environment_name(*self),
    {
        match self {
            Environment::Local => "local",
            Environment::Production => "production",
        }
    }

    /// Reads an environment from text that is already lowercase.
    pub fn from_lowercase(lower: &str) -> (parsed: Result<Environment, String>)
        ensures
            match parsed {
                Ok(environment) => environment_named(lower@) == Some(environment),
                Err(message) => environment_named(lower@) is None && message@
                    == unknown_environment_message(lower@),
            },
    {
        if same_text(lower, "local") {
            Ok(Environment::Local)
        } else if same_text(lower, "production") {
            Ok(Environment::Production)
        } else {
            Err(
                lower.to_owned().concat(
                    " is not a a supported environment. Use either 'local' or 'production'.",
                ),
            )
        }
    }

    /// Reads an environment from text, ignoring case.
    pub fn try_from(value: String) -> (parsed: Result<Environment, String>)
        ensures
            match parsed {
                Ok(environment) => environment_named(lowercase(value@)) == Some(environment),
                Err(message) => environment_named(lowercase(value@)) is None && message@
                    == unknown_environment_message(lowercase(value@)),
            },
    {
        let lower = to_lowercase(value.as_str());
        Environment::from_lowercase(lower.as_str())
    }

    /// The name of the file that holds the settings of this environment.
    pub fn config_filename(&self) -> (name: String)
        ensures
            name@ == config_filename_of(*self),
    {
        self.as_str().to_owned().concat(".yaml")
    }
}

/// The text that chooses the environment: the variable's value, or `local`
/// where the variable is not set.
pub open spec fn environment_choice(variable: Option<Seq<char>>) -> Seq<char> {
    match variable {
        Some(value) => value,
        None => "local"@,
    }
}

/// The environment that the variable chooses.
pub fn environment_from_variable(variable: Option<String>) -> (parsed: Result<Environment, String>)
    ensures
        ({
            let choice = environment_choice(
                match variable {
                    Some(value) => Some(value@),
                    None => None,
                },
            );
            match parsed {
                Ok(environment) => environment_named(lowercase(choice)) == Some(environment),
                Err(message) => environment_named(lowercase(choice)) is None && message@
                    == unknown_environment_message(lowercase(choice)),
            }
        }),
{
    match variable {
        Some(value) => Environment::try_from(value),
        None => Environment::try_from("local".to_owned()),
    }
}

/// The name of an environment names that environment and no other.
pub proof fn environment_name_round_trip(environment: Environment)
    ensures
        environment_named(environment_name(environment)) == Some(environment),
{
    reveal_strlit("local");
    reveal_strlit("production");
    assert("production"@.len() == 10);
}

} // verus!
