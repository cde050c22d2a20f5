//! A query compiler and predicate engine for searching a file tree with a
//! small SQL-like language: `select-list from dir-list where filter-expr
//! exec command`.
//!
//! A query text is compiled into a [`query::Query`]: the attributes to
//! display, the directories to search, a chain of predicates joined by
//! `and` / `or`, and an optional command template. The predicates are then
//! evaluated against [`filter::Entry`] values, one per visited file.

pub mod clock;
pub mod filetype_filter;
pub mod filter;
pub mod filter_tree;
pub mod formatter;
pub mod gid_filter;
pub mod name_filter;
pub mod parser;
pub mod pattern;
pub mod query;
pub mod regex_filter;
pub mod size_filter;
pub mod text;
pub mod time_filter;
pub mod uid_filter;

use vstd::prelude::*;

verus! {

/// The settings a user may keep in a file.
#[derive(Debug, PartialEq, Eq)]
pub struct Config {
    pub color: Option<ColorConfig>,
}

/// The colours of the names that are shown, each six hexadecimal digits of
/// red, green and blue. `prefix` colours the directories that lead to a
/// name, the others a name of their kind.
#[derive(Debug, PartialEq, Eq)]
pub struct ColorConfig {
    pub prefix: Option<String>,
    pub dir: Option<String>,
    pub file: Option<String>,
    pub fifo: Option<String>,
    pub socket: Option<String>,
    pub device: Option<String>,
    pub symlink: Option<String>,
}

} // verus!
