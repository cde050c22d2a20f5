//! The predicate that matches a regular expression against a name.

use crate::filter::{Attribute, CompOp, Entry, Filter, FilterError};
use crate::filter_tree::FilterTuple;
use crate::pattern::{compile, is_match, pattern_compiles, pattern_matches, Pattern};
use vstd::prelude::*;

verus! {

/// The text of an entry that a name attribute names, if it is valid Unicode.
pub open spec fn entry_text(attribute: Attribute, entry: &Entry) -> Option<Seq<char>> {
    match attribute {
        Attribute::Name => match entry.path {
            Some(path) => Some(path@),
            None => None,
        },
        Attribute::Basename => match entry.basename {
            Some(basename) => Some(basename@),
            None => None,
        },
        _ => None,
    }
}

/// Matches a pattern against the path or the base name of an entry, and
/// inverts the outcome for `not~`.
pub struct RegexFilter {
    attribute: Attribute,
    regex: Pattern,
    flip: bool,
}

impl RegexFilter {
    #[verifier::type_invariant]
    spec fn well_formed(self) -> bool {
        self.attribute.is_name()
    }

    pub closed spec fn attribute(&self) -> Attribute {
        self.attribute
    }

    /// The text of the pattern.
    pub closed spec fn pattern(&self) -> Seq<char> {
        self.regex@
    }

    /// Whether the filter accepts what the pattern does not match.
    pub closed spec fn negated(&self) -> bool {
        self.flip
    }

    /// Whether a tuple asks for a regular expression on a name.
    pub open spec fn applies(ft: &FilterTuple) -> bool {
        ft.attribute.is_name() && (ft.operator == CompOp::Like || ft.operator == CompOp::Unlike)
    }

    /// Builds the filter of a tuple and compiles its pattern.
    pub fn new(ft: &FilterTuple) -> (r: Result<RegexFilter, FilterError>)
        ensures
            match r {
                Ok(filter) => Self::applies(ft) && pattern_compiles(ft.parameter@)
                    && filter.attribute() == ft.attribute && filter.pattern() == ft.parameter@
                    && filter.negated() == (ft.operator == CompOp::Unlike),
                Err(e) => if Self::applies(ft) {
                    e.is_invalid_regex(ft.parameter@) && !pattern_compiles(ft.parameter@)
                } else {
                    e == FilterError::UnsupportedOperatorError {
                        attribute: ft.attribute,
                        operator: ft.operator,
                    }
                },
            },
    {
        let flip = match ft.operator {
            CompOp::Like => false,
            CompOp::Unlike => true,
            _ => {
                return Err(
                    FilterError::UnsupportedOperatorError {
                        attribute: ft.attribute,
                        operator: ft.operator,
                    },
                );
            },
        };
        match ft.attribute {
            Attribute::Name | Attribute::Basename => {},
            _ => {
                return Err(
                    FilterError::UnsupportedOperatorError {
                        attribute: ft.attribute,
                        operator: ft.operator,
                    },
                );
            },
        }
        match compile(ft.parameter.as_str()) {
            Ok(regex) => Ok(RegexFilter { attribute: ft.attribute, regex, flip }),
            Err(_) => Err(FilterError::InvalidRegexError { parameter: ft.parameter.clone() }),
        }
    }

    fn get_attribute<'a>(&self, entry: &'a Entry) -> (r: Option<&'a str>)
        ensures
            match r {
                Some(text) => entry_text(self.attribute(), entry) == Some(text@),
                None => entry_text(self.attribute(), entry) is None,
            },
    {
        match self.attribute {
            Attribute::Name => match &entry.path {
                Some(path) => Some(path.as_str()),
                None => None,
            },
            Attribute::Basename => match &entry.basename {
                Some(basename) => Some(basename.as_str()),
                None => None,
            },
            _ => None,
        }
    }
}

impl Filter for RegexFilter {
    open spec fn matches(&self, entry: &Entry) -> bool {
        match entry_text(self.attribute(), entry) {
            Some(text) => pattern_matches(self.pattern(), text) != self.negated(),
            None => false,
        }
    }

    fn test(&self, entry: &Entry) -> (r: bool) {
        match self.get_attribute(entry) {
            Some(text) => is_match(&self.regex, text) != self.flip,
            None => false,
        }
    }
}

} // verus!
