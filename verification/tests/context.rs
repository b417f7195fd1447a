use jrny::context::environment::{CliEnvironment, EnvError, Environment};

fn cli(db_url: Option<&str>) -> CliEnvironment {
    CliEnvironment { env_file: None, db_url: db_url.map(|u| u.to_string()) }
}

fn from_file() -> Environment {
    Environment::from_database_url("postgres://file")
}

#[test]
fn environment_from_a_connection_string() {
    let env = Environment::from_database_url("postgres://localhost/db");
    assert_eq!(env.database.url, "postgres://localhost/db");
}

#[test]
fn the_file_is_used_where_no_connection_string_is_given() {
    let file: Result<Environment, EnvError<String>> = Ok(from_file());
    assert_eq!(cli(None).jrny_environment(file), Ok(from_file()));
}

#[test]
fn the_connection_string_comes_before_the_file() {
    let file: Result<Environment, EnvError<String>> = Ok(from_file());
    assert_eq!(
        cli(Some("postgres://flag")).jrny_environment(file),
        Ok(Environment::from_database_url("postgres://flag"))
    );
}

#[test]
fn the_file_may_be_missing_where_a_connection_string_is_given() {
    let file: Result<Environment, EnvError<String>> = Err(EnvError::EnvNotFound);
    assert_eq!(
        cli(Some("postgres://flag")).jrny_environment(file),
        Ok(Environment::from_database_url("postgres://flag"))
    );
}

#[test]
fn no_file_and_no_connection_string_is_an_error() {
    let file: Result<Environment, EnvError<String>> = Err(EnvError::EnvNotFound);
    assert_eq!(cli(None).jrny_environment(file), Err(EnvError::EnvNotFound));
}

#[test]
fn a_file_that_is_invalid_is_an_error_even_with_a_connection_string() {
    let invalid = || EnvError::Invalid("bad toml".to_string());
    let file: Result<Environment, EnvError<String>> = Err(invalid());
    assert_eq!(cli(Some("postgres://flag")).jrny_environment(file), Err(invalid()));
    let file: Result<Environment, EnvError<String>> = Err(invalid());
    assert_eq!(cli(None).jrny_environment(file), Err(invalid()));
}
