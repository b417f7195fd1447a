//! What a command is run with.

pub mod environment;
