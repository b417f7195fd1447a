//! The environment of a command: where its database is.

use vstd::prelude::*;
use vstd::string::StringExecFns;

verus! {

/// The database of an environment.
#[derive(Debug, PartialEq, Eq)]
pub struct DatabaseEnvironment {
    /// The connection string.
    pub url: String,
}

/// What differs from one deployment to the next.
#[derive(Debug, PartialEq, Eq)]
pub struct Environment {
    pub database: DatabaseEnvironment,
}

impl Environment {
    /// The environment that has the database at `url` and nothing else.
    pub fn from_database_url(url: &str) -> (env: Environment)
        ensures
            env.database.url@ == url@,
    {
        Environment { database: DatabaseEnvironment { url: String::from_str(url) } }
    }
}

/// Why there is no environment.
#[derive(Debug, PartialEq, Eq)]
pub enum EnvError<E> {
    /// There is no environment file, and no connection string was given.
    EnvNotFound,
    /// The environment file is there and could not be used.
    Invalid(E),
}

/// What the command line says of the environment.
#[derive(Debug, PartialEq, Eq)]
pub struct CliEnvironment {
    /// The path of the environment file, where it is not the default.
    pub env_file: Option<String>,
    /// The connection string, where it is not the one in the environment
    /// file.
    pub db_url: Option<String>,
}

/// The environment that a command runs in, given what the command line
/// says and what reading the environment file gave.
///
/// A file that is there has to be valid even when the connection string is
/// given on the command line. A file that is missing is an error only when
/// no connection string is given. The connection string of the command line
/// comes before the file.
pub open spec fn chosen<E>(
    cli: CliEnvironment,
    file: Result<Environment, EnvError<E>>,
) -> Result<Environment, EnvError<E>> {
    match file {
        Err(EnvError::Invalid(e)) => Err(EnvError::Invalid(e)),
        _ => match cli.db_url {
            Some(url) => Ok(Environment { database: DatabaseEnvironment { url } }),
            None => file,
        },
    }
}

impl CliEnvironment {
    /// Decides on the environment. `file` is what reading the environment
    /// file gave: the environment in it, or why there is none.
    pub fn jrny_environment<E>(self, file: Result<Environment, EnvError<E>>) -> (env: Result<
        Environment,
        EnvError<E>,
    >)
        ensures
            env == chosen(self, file),
    {
        let file = match file {
            Ok(env) => Some(env),
            Err(EnvError::EnvNotFound) => None,
            Err(EnvError::Invalid(e)) => {
                return Err(EnvError::Invalid(e));
            },
        };
        match self.db_url {
            Some(url) => Ok(Environment { database: DatabaseEnvironment { url } }),
            None => match file {
                Some(env) => Ok(env),
                None => Err(EnvError::EnvNotFound),
            },
        }
    }
}

} // verus!
