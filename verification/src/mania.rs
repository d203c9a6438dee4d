//! The mania game mode: its configuration records and how a section of a
//! skin document resolves to them.

pub mod parser;
pub mod structs;
