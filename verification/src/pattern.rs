//! Regular expressions, compiled once and matched many times. The engine
//! is the `regex` crate; nothing it does is verified here.

use regex::Regex;
use vstd::prelude::*;

verus! {

/// `regex::Regex`, a compiled regular expression. Nothing inside it is
/// known here.
#[verifier::external_type_specification]
#[verifier::external_body]
pub struct ExRegex(regex::Regex);

/// `regex::Error`, the reason a pattern was refused. Nothing inside it is
/// known here.
#[verifier::external_type_specification]
#[verifier::external_body]
pub struct ExRegexError(regex::Error);

/// Whether `regex::Regex::new` accepts the pattern: its syntax is valid
/// and its compiled form stays within the engine's default size limit.
pub uninterp spec fn pattern_compiles(pattern: Seq<char>) -> bool;

/// Whether the regular expression compiled from `pattern` matches anywhere
/// in `text`: what `regex::Regex::is_match` answers.
pub uninterp spec fn pattern_matches(pattern: Seq<char>, text: Seq<char>) -> bool;

/// A compiled regular expression together with the text it was compiled
/// from. The two fields always belong together: `compile` is the only
/// place that makes a value of this type.
pub struct Pattern {
    source: String,
    regex: Regex,
}

impl View for Pattern {
    type V = Seq<char>;

    /// The pattern text.
    closed spec fn view(&self) -> Seq<char> {
        self.source@
    }
}

/// Compiles a pattern.
///
/// Calls `regex::Regex::new`, which answers for a given pattern always the
/// same. Claimed: it succeeds exactly on the patterns that
/// `pattern_compiles` names, and the value handed back remembers the
/// pattern it was made from.
#[verifier::external_body]
pub(crate) fn compile(source: &str) -> (r: Result<Pattern, regex::Error>)
    ensures
        r is Ok <==> pattern_compiles(source@),
        r matches Ok(pattern) ==> pattern@ == source@,
{
    match Regex::new(source) {
        Ok(regex) => Ok(Pattern { source: source.to_string(), regex }),
        Err(e) => Err(e),
    }
}

/// Whether the pattern matches anywhere in the text.
///
/// Calls `regex::Regex::is_match` on the compiled expression. Claimed: the
/// answer is the one that `pattern_matches` names for the pattern's text
/// and the searched text.
#[verifier::external_body]
pub(crate) fn is_match(pattern: &Pattern, text: &str) -> (r: bool)
    ensures
        r == pattern_matches(pattern@, text@),
{
    pattern.regex.is_match(text)
}

} // verus!
