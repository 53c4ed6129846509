//! Query shaping, result assembly and configuration access for a catalogue
//! of files kept in a relational datastore.

pub mod config;
pub mod host;
pub mod matching;
pub mod merge;
pub mod query;
pub mod records;
pub mod text;
pub mod timestamp;
