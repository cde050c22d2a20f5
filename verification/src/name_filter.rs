//! The two predicates that compare a name with a text, character for
//! character.

use crate::filter::{Entry, Filter};
use vstd::prelude::*;
use vstd::string::StringExecFns;

verus! {

/// Accepts the entry whose path is exactly a given text.
pub struct EqualNameFilter {
    string: String,
}

impl EqualNameFilter {
    /// The text the path is compared with.
    pub closed spec fn text(&self) -> Seq<char> {
        self.string@
    }

    pub fn new(string: &str) -> (r: EqualNameFilter)
        ensures
            r.text() == string@,
    {
        EqualNameFilter { string: String::from_str(string) }
    }
}

impl Filter for EqualNameFilter {
    open spec fn matches(&self, entry: &Entry) -> bool {
        match entry.path {
            Some(path) => path@ == self.text(),
            None => false,
        }
    }

    fn test(&self, entry: &Entry) -> (r: bool) {
        match &entry.path {
            Some(path) => self.string == *path,
            None => false,
        }
    }
}

/// Accepts the entry whose last path component is exactly a given text.
pub struct EqualBasenameFilter {
    string: String,
}

impl EqualBasenameFilter {
    /// The text the base name is compared with.
    pub closed spec fn text(&self) -> Seq<char> {
        self.string@
    }

    pub fn new(string: &str) -> (r: EqualBasenameFilter)
        ensures
            r.text() == string@,
    {
        EqualBasenameFilter { string: String::from_str(string) }
    }
}

impl Filter for EqualBasenameFilter {
    open spec fn matches(&self, entry: &Entry) -> bool {
        match entry.basename {
            Some(basename) => basename@ == self.text(),
            None => false,
        }
    }

    fn test(&self, entry: &Entry) -> (r: bool) {
        match &entry.basename {
            Some(basename) => self.string == *basename,
            None => false,
        }
    }
}

} // verus!
