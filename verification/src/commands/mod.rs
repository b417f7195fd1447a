//! The commands of the tool, as far as they decide anything.

pub mod begin;
