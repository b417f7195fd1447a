//! Plain-SQL schema revisions: the verified core.
//!
//! The heart of the crate is [`parser`], a scanner that cuts the text of one
//! revision into the statements that are run against the database, one by
//! one. Around it stand the decisions of the command line tool: [`commands`]
//! sets up a new project, [`context`] picks the environment of a command, and
//! [`logger`] says where a message goes. None of them touches a file or a
//! terminal: they say what is to be done.

use vstd::prelude::*;

pub mod commands;
pub mod context;
pub mod logger;
pub mod parser;

pub use commands::begin::Begin;
pub use context::environment::Environment;
pub use logger::Logger;
pub use parser::scanner::{scan, scan_text, ScanError, ScanResult, Scanner, Statement};

verus! {

/// The default name of the config file
pub const CONF: &'static str = "jrny.toml";

/// The default name of the environment file
pub const ENV: &'static str = "jrny-env.toml";

/// The default name of the example environment file
pub const ENV_EX: &'static str = "jrny-env.example.toml";

} // verus!
