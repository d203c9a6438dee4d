//! Typed configuration records for rhythm-game skins, resolved from
//! INI-style key/value sections.

pub mod document;
pub mod mania;
pub mod resolve;
pub mod structs;
pub mod text;
