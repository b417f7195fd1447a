//! Cutting SQL text into statements.
//!
//! [`states`] holds the lexical states and their transition table, [`text`]
//! the few facts about characters that the scanner needs, [`scanner`] the
//! driver that collects the statements, and [`laws`] what is proved of every
//! scan.

pub mod laws;
pub mod scanner;
pub mod states;
pub mod text;
