//! The grammar of the query language.
//!
//! ```text
//! query       := select-list from-part? where-part? exec-part? ";"?
//! select-list := (attribute ("," attribute)*)?
//! from-part   := "from" dir ("," dir)*
//! where-part  := "where" filter-expr
//! exec-part   := "exec" command
//! filter-expr := filter (logic-op filter-expr)?
//! filter      := attribute comp-op parameter
//! ```
//!
//! Keywords are case-sensitive, and white space may stand around every
//! token. Each rule is a spec function from a text and a position to what
//! was read and the position behind it; the executable parser beside it is
//! proved to read the same.

use crate::filter::{Attribute, CompOp, QueryError};
use crate::filter_tree::{FilterTuple, LogicOp};
use crate::text::{
    digit, digits_end, is_digit, is_letter, is_space, letter, scan_digits, space, to_chars,
};
use vstd::prelude::*;
use vstd::string::StrSliceExecFns;

verus! {

/// The position of the first character at or after `at` that is not white
/// space.
pub open spec fn skip_spaces(s: Seq<char>, at: int) -> int
    decreases s.len() - at,
{
    if 0 <= at < s.len() && is_space(s[at]) {
        skip_spaces(s, at + 1)
    } else {
        at
    }
}

/// Whether the text holds `word` at `at`.
pub open spec fn has_tag(s: Seq<char>, at: int, word: Seq<char>) -> bool {
    0 <= at && at + word.len() <= s.len() && s.subrange(at, at + word.len()) == word
}

/// The attribute whose name stands at `at`, and the position behind it.
pub open spec fn attribute_token(s: Seq<char>, at: int) -> Option<(Attribute, int)> {
    if has_tag(s, at, "name"@) {
        Some((Attribute::Name, at + "name"@.len()))
    } else if has_tag(s, at, "size"@) {
        Some((Attribute::Size, at + "size"@.len()))
    } else if has_tag(s, at, "mtime"@) {
        Some((Attribute::Mtime, at + "mtime"@.len()))
    } else if has_tag(s, at, "ctime"@) {
        Some((Attribute::Ctime, at + "ctime"@.len()))
    } else if has_tag(s, at, "atime"@) {
        Some((Attribute::Atime, at + "atime"@.len()))
    } else if has_tag(s, at, "filetype"@) {
        Some((Attribute::Filetype, at + "filetype"@.len()))
    } else if has_tag(s, at, "mimetype"@) {
        Some((Attribute::Mimetype, at + "mimetype"@.len()))
    } else if has_tag(s, at, "inode"@) {
        Some((Attribute::Inode, at + "inode"@.len()))
    } else if has_tag(s, at, "basename"@) {
        Some((Attribute::Basename, at + "basename"@.len()))
    } else if has_tag(s, at, "uid"@) {
        Some((Attribute::Uid, at + "uid"@.len()))
    } else if has_tag(s, at, "gid"@) {
        Some((Attribute::Gid, at + "gid"@.len()))
    } else {
        None
    }
}

/// An attribute with the white space around it.
pub open spec fn attribute(s: Seq<char>, at: int) -> Option<(Attribute, int)> {
    match attribute_token(s, skip_spaces(s, at)) {
        Some((attribute, end)) => Some((attribute, skip_spaces(s, end))),
        None => None,
    }
}

/// The comparison operator that stands at `at`: one of
/// `<= < == not= >= > ~ not~`, the longer of two that fit.
pub open spec fn comp_op_token(s: Seq<char>, at: int) -> Option<(CompOp, int)> {
    if has_tag(s, at, "<="@) {
        Some((CompOp::LowerEqual, at + "<="@.len()))
    } else if has_tag(s, at, "<"@) {
        Some((CompOp::Lower, at + "<"@.len()))
    } else if has_tag(s, at, "=="@) {
        Some((CompOp::Equal, at + "=="@.len()))
    } else if has_tag(s, at, "not="@) {
        Some((CompOp::Unequal, at + "not="@.len()))
    } else if has_tag(s, at, ">="@) {
        Some((CompOp::GreaterEqual, at + ">="@.len()))
    } else if has_tag(s, at, ">"@) {
        Some((CompOp::Greater, at + ">"@.len()))
    } else if has_tag(s, at, "~"@) {
        Some((CompOp::Like, at + "~"@.len()))
    } else if has_tag(s, at, "not~"@) {
        Some((CompOp::Unlike, at + "not~"@.len()))
    } else {
        None
    }
}

/// A comparison operator with the white space around it.
pub open spec fn comp_op(s: Seq<char>, at: int) -> Option<(CompOp, int)> {
    match comp_op_token(s, skip_spaces(s, at)) {
        Some((operator, end)) => Some((operator, skip_spaces(s, end))),
        None => None,
    }
}

/// `or` or `and`, with the white space around it.
pub open spec fn logic_op(s: Seq<char>, at: int) -> Option<(LogicOp, int)> {
    let start = skip_spaces(s, at);
    if has_tag(s, start, "or"@) {
        Some((LogicOp::Or, skip_spaces(s, start + "or"@.len())))
    } else if has_tag(s, start, "and"@) {
        Some((LogicOp::And, skip_spaces(s, start + "and"@.len())))
    } else {
        None
    }
}

/// A keyword with the white space around it.
pub open spec fn keyword(s: Seq<char>, at: int, word: Seq<char>) -> Option<int> {
    let start = skip_spaces(s, at);
    if has_tag(s, start, word) {
        Some(skip_spaces(s, start + word.len()))
    } else {
        None
    }
}

fn skip(chars: &Vec<char>, at: usize) -> (end: usize)
    requires
        at <= chars.len(),
    ensures
        end == skip_spaces(chars@, at as int),
        at <= end <= chars.len(),
{
    let mut end = at;
    while end < chars.len() && space(chars[end])
        invariant
            at <= end <= chars.len(),
            skip_spaces(chars@, at as int) == skip_spaces(chars@, end as int),
        decreases chars.len() - end,
    {
        end += 1;
    }
    end
}

/// Looks for `word` at `at` and gives the position behind it.
fn tag(chars: &Vec<char>, at: usize, word: &str) -> (r: Option<usize>)
    requires
        at <= chars.len(),
    ensures
        match r {
            Some(end) => has_tag(chars@, at as int, word@) && end == at + word@.len() && end
                <= chars.len(),
            None => !has_tag(chars@, at as int, word@),
        },
{
    let letters = to_chars(word);
    let n = letters.len();
    if n > chars.len() - at {
        return None;
    }
    let mut i: usize = 0;
    while i < n
        invariant
            i <= n,
            n == letters.len(),
            at + n <= chars.len(),
            letters@ == word@,
            forall|k: int| 0 <= k < i ==> chars@[at + k] == letters@[k],
        decreases n - i,
    {
        if chars[at + i] != letters[i] {
            assert(chars@.subrange(at as int, at + n)[i as int] != word@[i as int]);
            return None;
        }
        i += 1;
    }
    assert(chars@.subrange(at as int, at + n) =~= word@);
    Some(at + n)
}

fn read_attribute_token(chars: &Vec<char>, at: usize) -> (r: Option<(Attribute, usize)>)
    requires
        at <= chars.len(),
    ensures
        match r {
            Some((attribute, end)) => attribute_token(chars@, at as int) == Some(
                (attribute, end as int),
            ) && at < end <= chars.len(),
            None => attribute_token(chars@, at as int) is None,
        },
{
    proof {
        reveal_strlit("name");
        reveal_strlit("size");
        reveal_strlit("mtime");
        reveal_strlit("ctime");
        reveal_strlit("atime");
        reveal_strlit("filetype");
        reveal_strlit("mimetype");
        reveal_strlit("inode");
        reveal_strlit("basename");
        reveal_strlit("uid");
        reveal_strlit("gid");
    }
    if let Some(end) = tag(chars, at, "name") {
        Some((Attribute::Name, end))
    } else if let Some(end) = tag(chars, at, "size") {
        Some((Attribute::Size, end))
    } else if let Some(end) = tag(chars, at, "mtime") {
        Some((Attribute::Mtime, end))
    } else if let Some(end) = tag(chars, at, "ctime") {
        Some((Attribute::Ctime, end))
    } else if let Some(end) = tag(chars, at, "atime") {
        Some((Attribute::Atime, end))
    } else if let Some(end) = tag(chars, at, "filetype") {
        Some((Attribute::Filetype, end))
    } else if let Some(end) = tag(chars, at, "mimetype") {
        Some((Attribute::Mimetype, end))
    } else if let Some(end) = tag(chars, at, "inode") {
        Some((Attribute::Inode, end))
    } else if let Some(end) = tag(chars, at, "basename") {
        Some((Attribute::Basename, end))
    } else if let Some(end) = tag(chars, at, "uid") {
        Some((Attribute::Uid, end))
    } else if let Some(end) = tag(chars, at, "gid") {
        Some((Attribute::Gid, end))
    } else {
        None
    }
}

fn read_attribute(chars: &Vec<char>, at: usize) -> (r: Option<(Attribute, usize)>)
    requires
        at <= chars.len(),
    ensures
        match r {
            Some((found, end)) => attribute(chars@, at as int) == Some((found, end as int)) && at
                < end <= chars.len(),
            None => attribute(chars@, at as int) is None,
        },
{
    match read_attribute_token(chars, skip(chars, at)) {
        Some((found, end)) => Some((found, skip(chars, end))),
        None => None,
    }
}

fn read_comp_op(chars: &Vec<char>, at: usize) -> (r: Option<(CompOp, usize)>)
    requires
        at <= chars.len(),
    ensures
        match r {
            Some((operator, end)) => comp_op(chars@, at as int) == Some((operator, end as int))
                && at < end <= chars.len(),
            None => comp_op(chars@, at as int) is None,
        },
{
    proof {
        reveal_strlit("<=");
        reveal_strlit("<");
        reveal_strlit("==");
        reveal_strlit("not=");
        reveal_strlit(">=");
        reveal_strlit(">");
        reveal_strlit("~");
        reveal_strlit("not~");
    }
    let start = skip(chars, at);
    let found = if let Some(end) = tag(chars, start, "<=") {
        Some((CompOp::LowerEqual, end))
    } else if let Some(end) = tag(chars, start, "<") {
        Some((CompOp::Lower, end))
    } else if let Some(end) = tag(chars, start, "==") {
        Some((CompOp::Equal, end))
    } else if let Some(end) = tag(chars, start, "not=") {
        Some((CompOp::Unequal, end))
    } else if let Some(end) = tag(chars, start, ">=") {
        Some((CompOp::GreaterEqual, end))
    } else if let Some(end) = tag(chars, start, ">") {
        Some((CompOp::Greater, end))
    } else if let Some(end) = tag(chars, start, "~") {
        Some((CompOp::Like, end))
    } else if let Some(end) = tag(chars, start, "not~") {
        Some((CompOp::Unlike, end))
    } else {
        None
    };
    match found {
        Some((operator, end)) => Some((operator, skip(chars, end))),
        None => None,
    }
}

fn read_logic_op(chars: &Vec<char>, at: usize) -> (r: Option<(LogicOp, usize)>)
    requires
        at <= chars.len(),
    ensures
        match r {
            Some((operator, end)) => logic_op(chars@, at as int) == Some((operator, end as int))
                && at < end <= chars.len(),
            None => logic_op(chars@, at as int) is None,
        },
{
    proof {
        reveal_strlit("or");
        reveal_strlit("and");
    }
    let start = skip(chars, at);
    if let Some(end) = tag(chars, start, "or") {
        Some((LogicOp::Or, skip(chars, end)))
    } else if let Some(end) = tag(chars, start, "and") {
        Some((LogicOp::And, skip(chars, end)))
    } else {
        None
    }
}

fn read_keyword(chars: &Vec<char>, at: usize, word: &str) -> (r: Option<usize>)
    requires
        at <= chars.len(),
    ensures
        match r {
            Some(end) => keyword(chars@, at as int, word@) == Some(end as int) && at <= end
                <= chars.len(),
            None => keyword(chars@, at as int, word@) is None,
        },
{
    let start = skip(chars, at);
    match tag(chars, start, word) {
        Some(end) => Some(skip(chars, end)),
        None => None,
    }
}

/// The position of the first `stop` at or after `at`, or the end of the
/// text.
pub open spec fn until(s: Seq<char>, at: int, stop: char) -> int
    decreases s.len() - at,
{
    if 0 <= at < s.len() && s[at] != stop {
        until(s, at + 1, stop)
    } else {
        at
    }
}

/// A number with a unit behind it: an optional minus sign, digits, an
/// optional point with further digits, and one letter. Gives the position
/// behind the letter.
pub open spec fn num_token(s: Seq<char>, at: int) -> Option<int> {
    let start = if 0 <= at < s.len() && s[at] == '-' {
        at + 1
    } else {
        at
    };
    let whole_end = digits_end(s, start);
    let fraction_end = if 0 <= whole_end < s.len() && s[whole_end] == '.' {
        digits_end(s, whole_end + 1)
    } else {
        whole_end
    };
    if whole_end > start && 0 <= fraction_end < s.len() && is_letter(s[fraction_end]) {
        Some(fraction_end + 1)
    } else {
        None
    }
}

/// A text between single quotes, at least one character long; a quote
/// cannot stand inside. Gives the position of the closing quote.
pub open spec fn str_token(s: Seq<char>, at: int) -> Option<int> {
    let close = until(s, at + 1, '\'');
    if 0 <= at < s.len() && s[at] == '\'' && at + 1 < close < s.len() {
        Some(close)
    } else {
        None
    }
}

/// Whether the ten characters at `at` are `YYYY-MM-DD`.
pub open spec fn date_at(s: Seq<char>, at: int) -> bool {
    &&& 0 <= at && at + 10 <= s.len()
    &&& is_digit(s[at]) && is_digit(s[at + 1]) && is_digit(s[at + 2]) && is_digit(s[at + 3])
    &&& s[at + 4] == '-'
    &&& is_digit(s[at + 5]) && is_digit(s[at + 6])
    &&& s[at + 7] == '-'
    &&& is_digit(s[at + 8]) && is_digit(s[at + 9])
}

/// An hour of two digits or one, a colon and two digits of minutes. Gives
/// the position behind the minutes.
pub open spec fn clock_at(s: Seq<char>, at: int) -> Option<int> {
    if 0 <= at && at + 5 <= s.len() && is_digit(s[at]) && is_digit(s[at + 1]) && s[at + 2] == ':'
        && is_digit(s[at + 3]) && is_digit(s[at + 4]) {
        Some(at + 5)
    } else if 0 <= at && at + 4 <= s.len() && is_digit(s[at]) && s[at + 1] == ':' && is_digit(
        s[at + 2],
    ) && is_digit(s[at + 3]) {
        Some(at + 4)
    } else {
        None
    }
}

/// A time of day with at most one space in front of it.
pub open spec fn spaced_clock_at(s: Seq<char>, at: int) -> Option<int> {
    if 0 <= at < s.len() && s[at] == ' ' {
        clock_at(s, at + 1)
    } else {
        clock_at(s, at)
    }
}

/// A date with a time of day, a time of day alone, or a date alone, tried
/// in this order. Gives the position behind what was read.
pub open spec fn date_token(s: Seq<char>, at: int) -> Option<int> {
    if date_at(s, at) && spaced_clock_at(s, at + 10) is Some {
        spaced_clock_at(s, at + 10)
    } else if spaced_clock_at(s, at) is Some {
        spaced_clock_at(s, at)
    } else if date_at(s, at) {
        Some(at + 10)
    } else {
        None
    }
}

/// A parameter with the white space around it: a number with a unit, a
/// quoted text or a date, tried in this order. Gives the text of the
/// parameter, without the quotes of a quoted one.
pub open spec fn parameter(s: Seq<char>, at: int) -> Option<(Seq<char>, int)> {
    let start = skip_spaces(s, at);
    match num_token(s, start) {
        Some(end) => Some((s.subrange(start, end), skip_spaces(s, end))),
        None => match str_token(s, start) {
            Some(close) => Some((s.subrange(start + 1, close), skip_spaces(s, close + 1))),
            None => match date_token(s, start) {
                Some(end) => Some((s.subrange(start, end), skip_spaces(s, end))),
                None => None,
            },
        },
    }
}

/// One `attribute comp-op parameter` triple.
pub open spec fn filter(s: Seq<char>, at: int) -> Option<((Attribute, CompOp, Seq<char>), int)> {
    match attribute(s, at) {
        Some((attribute, operator_at)) => match comp_op(s, operator_at) {
            Some((operator, parameter_at)) => match parameter(s, parameter_at) {
                Some((value, end)) => Some(((attribute, operator, value), end)),
                None => None,
            },
            None => None,
        },
        None => None,
    }
}

fn scan_until(chars: &Vec<char>, at: usize, stop: char) -> (end: usize)
    requires
        at <= chars.len(),
    ensures
        end == until(chars@, at as int, stop),
        at <= end <= chars.len(),
{
    let mut end = at;
    while end < chars.len() && chars[end] != stop
        invariant
            at <= end <= chars.len(),
            until(chars@, at as int, stop) == until(chars@, end as int, stop),
        decreases chars.len() - end,
    {
        end += 1;
    }
    end
}

fn read_num_token(chars: &Vec<char>, at: usize) -> (r: Option<usize>)
    requires
        at <= chars.len(),
    ensures
        match r {
            Some(end) => num_token(chars@, at as int) == Some(end as int) && at < end
                <= chars.len(),
            None => num_token(chars@, at as int) is None,
        },
{
    let n = chars.len();
    let start = if at < n && chars[at] == '-' {
        at + 1
    } else {
        at
    };
    let whole_end = scan_digits(chars, start);
    let fraction_end = if whole_end < n && chars[whole_end] == '.' {
        scan_digits(chars, whole_end + 1)
    } else {
        whole_end
    };
    if whole_end > start && fraction_end < n && letter(chars[fraction_end]) {
        Some(fraction_end + 1)
    } else {
        None
    }
}

fn read_str_token(chars: &Vec<char>, at: usize) -> (r: Option<usize>)
    requires
        at <= chars.len(),
    ensures
        match r {
            Some(close) => str_token(chars@, at as int) == Some(close as int) && at + 1 < close
                < chars.len(),
            None => str_token(chars@, at as int) is None,
        },
{
    let n = chars.len();
    if at < n && chars[at] == '\'' {
        let close = scan_until(chars, at + 1, '\'');
        if at + 1 < close && close < n {
            Some(close)
        } else {
            None
        }
    } else {
        None
    }
}

fn digit_at(chars: &Vec<char>, at: usize) -> (r: bool)
    requires
        at < chars.len(),
    ensures
        r == is_digit(chars@[at as int]),
{
    digit(chars[at])
}

fn read_date_at(chars: &Vec<char>, at: usize) -> (r: bool)
    requires
        at <= chars.len(),
    ensures
        r == date_at(chars@, at as int),
{
    chars.len() - at >= 10 && digit_at(chars, at) && digit_at(chars, at + 1) && digit_at(
        chars,
        at + 2,
    ) && digit_at(chars, at + 3) && chars[at + 4] == '-' && digit_at(chars, at + 5) && digit_at(
        chars,
        at + 6,
    ) && chars[at + 7] == '-' && digit_at(chars, at + 8) && digit_at(chars, at + 9)
}

fn read_clock_at(chars: &Vec<char>, at: usize) -> (r: Option<usize>)
    requires
        at <= chars.len(),
    ensures
        match r {
            Some(end) => clock_at(chars@, at as int) == Some(end as int) && at < end
                <= chars.len(),
            None => clock_at(chars@, at as int) is None,
        },
{
    let room = chars.len() - at;
    if room >= 5 && digit_at(chars, at) && digit_at(chars, at + 1) && chars[at + 2] == ':'
        && digit_at(chars, at + 3) && digit_at(chars, at + 4) {
        Some(at + 5)
    } else if room >= 4 && digit_at(chars, at) && chars[at + 1] == ':' && digit_at(chars, at + 2)
        && digit_at(chars, at + 3) {
        Some(at + 4)
    } else {
        None
    }
}

fn read_spaced_clock_at(chars: &Vec<char>, at: usize) -> (r: Option<usize>)
    requires
        at <= chars.len(),
    ensures
        match r {
            Some(end) => spaced_clock_at(chars@, at as int) == Some(end as int) && at < end
                <= chars.len(),
            None => spaced_clock_at(chars@, at as int) is None,
        },
{
    if at < chars.len() && chars[at] == ' ' {
        read_clock_at(chars, at + 1)
    } else {
        read_clock_at(chars, at)
    }
}

fn read_date_token(chars: &Vec<char>, at: usize) -> (r: Option<usize>)
    requires
        at <= chars.len(),
    ensures
        match r {
            Some(end) => date_token(chars@, at as int) == Some(end as int) && at < end
                <= chars.len(),
            None => date_token(chars@, at as int) is None,
        },
{
    let date = read_date_at(chars, at);
    if date {
        if let Some(end) = read_spaced_clock_at(chars, at + 10) {
            return Some(end);
        }
    }
    if let Some(end) = read_spaced_clock_at(chars, at) {
        return Some(end);
    }
    if date {
        Some(at + 10)
    } else {
        None
    }
}

/// The text from `from` up to `to` as a string of its own.
fn cut(input: &str, from: usize, to: usize) -> (r: String)
    requires
        from <= to <= input@.len(),
    ensures
        r@ == input@.subrange(from as int, to as int),
{
    input.substring_char(from, to).to_owned()
}

fn read_parameter(input: &str, chars: &Vec<char>, at: usize) -> (r: Option<(String, usize)>)
    requires
        chars@ == input@,
        at <= chars.len(),
    ensures
        match r {
            Some((value, end)) => parameter(chars@, at as int) == Some((value@, end as int)) && at
                < end <= chars.len(),
            None => parameter(chars@, at as int) is None,
        },
{
    let start = skip(chars, at);
    if let Some(end) = read_num_token(chars, start) {
        Some((cut(input, start, end), skip(chars, end)))
    } else if let Some(close) = read_str_token(chars, start) {
        Some((cut(input, start + 1, close), skip(chars, close + 1)))
    } else if let Some(end) = read_date_token(chars, start) {
        Some((cut(input, start, end), skip(chars, end)))
    } else {
        None
    }
}

fn read_filter(input: &str, chars: &Vec<char>, at: usize) -> (r: Option<(FilterTuple, usize)>)
    requires
        chars@ == input@,
        at <= chars.len(),
    ensures
        match r {
            Some((tuple, end)) => filter(chars@, at as int) == Some(
                ((tuple.attribute, tuple.operator, tuple.parameter@), end as int),
            ) && at < end <= chars.len(),
            None => filter(chars@, at as int) is None,
        },
{
    let (found, operator_at) = match read_attribute(chars, at) {
        Some(read) => read,
        None => {
            return None;
        },
    };
    let (operator, parameter_at) = match read_comp_op(chars, operator_at) {
        Some(read) => read,
        None => {
            return None;
        },
    };
    match read_parameter(input, chars, parameter_at) {
        Some((value, end)) => Some((FilterTuple::new(found, operator, value), end)),
        None => None,
    }
}

/// A filter tuple as the grammar reads it: attribute, operator and the
/// text of the parameter.
pub type Triple = (Attribute, CompOp, Seq<char>);

/// A filter expression as it was read: a tuple and, behind a logic
/// operator, the rest of the expression. Nothing in it has been checked
/// for meaning yet.
#[derive(Debug, PartialEq, Eq)]
pub struct FilterExpr {
    pub tuple: FilterTuple,
    pub operator: Option<LogicOp>,
    pub rest: Option<Box<FilterExpr>>,
}

impl FilterExpr {
    /// The tuples of the expression from left to right.
    pub open spec fn tuples(&self) -> Seq<Triple>
        decreases self,
    {
        let first = seq![(self.tuple.attribute, self.tuple.operator, self.tuple.parameter@)];
        match (self.operator, self.rest) {
            (Some(operator), Some(rest)) => first + rest.tuples(),
            _ => first,
        }
    }

    /// The logic operators between the tuples from left to right.
    pub open spec fn operators(&self) -> Seq<LogicOp>
        decreases self,
    {
        match (self.operator, self.rest) {
            (Some(operator), Some(rest)) => seq![operator] + rest.operators(),
            _ => Seq::empty(),
        }
    }
}

/// `filter (logic-op filter-expr)?`: the tuples, the operators between
/// them, and the position behind the last tuple. A logic operator that no
/// filter follows is not part of the expression.
pub open spec fn filter_expr(s: Seq<char>, at: int) -> Option<(Seq<Triple>, Seq<LogicOp>, int)>
    decreases s.len() - at,
{
    match filter(s, at) {
        Some((tuple, end)) => match logic_op(s, end) {
            Some((operator, next)) => if at < next <= s.len() {
                match filter_expr(s, next) {
                    Some((tuples, operators, last)) => Some(
                        (seq![tuple] + tuples, seq![operator] + operators, last),
                    ),
                    None => Some((seq![tuple], Seq::empty(), end)),
                }
            } else {
                Some((seq![tuple], Seq::empty(), end))
            },
            None => Some((seq![tuple], Seq::empty(), end)),
        },
        None => None,
    }
}

fn read_filter_expr(input: &str, chars: &Vec<char>, at: usize) -> (r: Option<(FilterExpr, usize)>)
    requires
        chars@ == input@,
        at <= chars.len(),
    ensures
        match r {
            Some((expr, end)) => filter_expr(chars@, at as int) == Some(
                (expr.tuples(), expr.operators(), end as int),
            ) && at < end <= chars.len(),
            None => filter_expr(chars@, at as int) is None,
        },
    decreases chars.len() - at,
{
    let (tuple, end) = match read_filter(input, chars, at) {
        Some(read) => read,
        None => {
            return None;
        },
    };
    if let Some((operator, next)) = read_logic_op(chars, end) {
        if let Some((rest, last)) = read_filter_expr(input, chars, next) {
            return Some(
                (FilterExpr { tuple, operator: Some(operator), rest: Some(Box::new(rest)) }, last),
            );
        }
    }
    Some((FilterExpr { tuple, operator: None, rest: None }, end))
}

/// The attributes that follow a first one, each behind a comma.
pub open spec fn attribute_more(s: Seq<char>, at: int) -> (Seq<Attribute>, int)
    decreases s.len() - at,
{
    match keyword(s, at, ","@) {
        Some(next) => match attribute(s, next) {
            Some((found, end)) => if at < end <= s.len() {
                (seq![found] + attribute_more(s, end).0, attribute_more(s, end).1)
            } else {
                (Seq::empty(), at)
            },
            None => (Seq::empty(), at),
        },
        None => (Seq::empty(), at),
    }
}

/// `(attribute ("," attribute)*)?`: the attributes and the position behind
/// the last one. A comma that no attribute follows is not part of the list.
pub open spec fn attribute_list(s: Seq<char>, at: int) -> (Seq<Attribute>, int) {
    match attribute(s, at) {
        Some((found, end)) => (seq![found] + attribute_more(s, end).0, attribute_more(s, end).1),
        None => (Seq::empty(), at),
    }
}

fn read_attribute_list(chars: &Vec<char>, at: usize) -> (r: (Vec<Attribute>, usize))
    requires
        at <= chars.len(),
    ensures
        (r.0@, r.1 as int) == attribute_list(chars@, at as int),
        at <= r.1 <= chars.len(),
{
    let mut list: Vec<Attribute> = Vec::new();
    let (first, mut pos) = match read_attribute(chars, at) {
        Some(read) => read,
        None => {
            return (list, at);
        },
    };
    list.push(first);
    let ghost whole = attribute_list(chars@, at as int);
    assert(list@ =~= seq![first]);
    loop
        invariant_except_break
            at <= pos <= chars.len(),
            list@ + attribute_more(chars@, pos as int).0 == whole.0,
            attribute_more(chars@, pos as int).1 == whole.1,
        ensures
            at <= pos <= chars.len(),
            list@ == whole.0,
            pos == whole.1,
        decreases chars.len() - pos,
    {
        let next = match read_keyword(chars, pos, ",") {
            Some(next) => next,
            None => {
                assert(list@ + Seq::<Attribute>::empty() =~= list@);
                break ;
            },
        };
        let (found, end) = match read_attribute(chars, next) {
            Some(read) => read,
            None => {
                assert(list@ + Seq::<Attribute>::empty() =~= list@);
                break ;
            },
        };
        assert(list@.push(found) + attribute_more(chars@, end as int).0 =~= list@ + (seq![found]
            + attribute_more(chars@, end as int).0));
        list.push(found);
        pos = end;
    }
    (list, pos)
}

/// A character that may stand in a path component: any but `/`, NUL,
/// comma, semicolon and space.
pub open spec fn is_path_char(c: char) -> bool {
    c != '/' && c != '\0' && c != ',' && c != ';' && c != ' '
}

/// The end of the path component that starts at `at`.
pub open spec fn component_end(s: Seq<char>, at: int) -> int
    decreases s.len() - at,
{
    if 0 <= at < s.len() && is_path_char(s[at]) {
        component_end(s, at + 1)
    } else {
        at
    }
}

/// The end of the path components that start at `at`, each with at most
/// one `/` behind it.
pub open spec fn components_end(s: Seq<char>, at: int) -> int
    decreases s.len() - at,
{
    let end = component_end(s, at);
    if at < end <= s.len() {
        components_end(
            s,
            if end < s.len() && s[end] == '/' {
                end + 1
            } else {
                end
            },
        )
    } else {
        at
    }
}

/// A directory: an optional `/` and path components. Gives the position
/// behind it; a directory has at least one character.
pub open spec fn directory(s: Seq<char>, at: int) -> Option<int> {
    let end = components_end(
        s,
        if 0 <= at < s.len() && s[at] == '/' {
            at + 1
        } else {
            at
        },
    );
    if end > at {
        Some(end)
    } else {
        None
    }
}

/// The directories that follow a first one, each behind a comma.
pub open spec fn directory_more(s: Seq<char>, at: int) -> (Seq<Seq<char>>, int)
    decreases s.len() - at,
{
    match keyword(s, at, ","@) {
        Some(next) => match directory(s, next) {
            Some(end) => if at < end <= s.len() {
                (
                    seq![s.subrange(next, end)] + directory_more(s, end).0,
                    directory_more(s, end).1,
                )
            } else {
                (Seq::empty(), at)
            },
            None => (Seq::empty(), at),
        },
        None => (Seq::empty(), at),
    }
}

/// `"from" dir ("," dir)*`: the directories and the position behind the
/// last one.
pub open spec fn from_part(s: Seq<char>, at: int) -> Option<(Seq<Seq<char>>, int)> {
    match keyword(s, at, "from"@) {
        Some(start) => match directory(s, start) {
            Some(end) => Some(
                (
                    seq![s.subrange(start, end)] + directory_more(s, end).0,
                    directory_more(s, end).1,
                ),
            ),
            None => None,
        },
        None => None,
    }
}

/// `"where" filter-expr`.
pub open spec fn where_part(s: Seq<char>, at: int) -> Option<(Seq<Triple>, Seq<LogicOp>, int)> {
    match keyword(s, at, "where"@) {
        Some(start) => filter_expr(s, start),
        None => None,
    }
}

/// `"exec" command`: the command is everything up to the next semicolon
/// or the end of the text, and at least one character.
pub open spec fn exec_part(s: Seq<char>, at: int) -> Option<(Seq<char>, int)> {
    match keyword(s, at, "exec"@) {
        Some(start) => if until(s, start, ';') > start {
            Some((s.subrange(start, until(s, start, ';')), until(s, start, ';')))
        } else {
            None
        },
        None => None,
    }
}

/// The texts of a list of strings.
pub open spec fn texts(list: Seq<String>) -> Seq<Seq<char>> {
    Seq::new(list.len(), |i: int| list[i]@)
}

fn scan_component(chars: &Vec<char>, at: usize) -> (end: usize)
    requires
        at <= chars.len(),
    ensures
        end == component_end(chars@, at as int),
        at <= end <= chars.len(),
{
    let mut end = at;
    while end < chars.len() && chars[end] != '/' && chars[end] != '\0' && chars[end] != ','
        && chars[end] != ';' && chars[end] != ' '
        invariant
            at <= end <= chars.len(),
            component_end(chars@, at as int) == component_end(chars@, end as int),
        decreases chars.len() - end,
    {
        end += 1;
    }
    end
}

fn scan_components(chars: &Vec<char>, at: usize) -> (end: usize)
    requires
        at <= chars.len(),
    ensures
        end == components_end(chars@, at as int),
        at <= end <= chars.len(),
{
    let mut pos = at;
    loop
        invariant_except_break
            at <= pos <= chars.len(),
            components_end(chars@, at as int) == components_end(chars@, pos as int),
        ensures
            at <= pos <= chars.len(),
            pos == components_end(chars@, at as int),
        decreases chars.len() - pos,
    {
        let end = scan_component(chars, pos);
        if end == pos {
            break ;
        }
        pos = if end < chars.len() && chars[end] == '/' {
            end + 1
        } else {
            end
        };
    }
    pos
}

fn read_directory(chars: &Vec<char>, at: usize) -> (r: Option<usize>)
    requires
        at <= chars.len(),
    ensures
        match r {
            Some(end) => directory(chars@, at as int) == Some(end as int) && at < end
                <= chars.len(),
            None => directory(chars@, at as int) is None,
        },
{
    let start = if at < chars.len() && chars[at] == '/' {
        at + 1
    } else {
        at
    };
    let end = scan_components(chars, start);
    if end > at {
        Some(end)
    } else {
        None
    }
}

fn read_from_part(input: &str, chars: &Vec<char>, at: usize) -> (r: Option<(Vec<String>, usize)>)
    requires
        chars@ == input@,
        at <= chars.len(),
    ensures
        match r {
            Some((list, end)) => from_part(chars@, at as int) == Some((texts(list@), end as int))
                && at <= end <= chars.len(),
            None => from_part(chars@, at as int) is None,
        },
{
    let start = match read_keyword(chars, at, "from") {
        Some(start) => start,
        None => {
            return None;
        },
    };
    let mut pos = match read_directory(chars, start) {
        Some(end) => end,
        None => {
            return None;
        },
    };
    let mut list: Vec<String> = Vec::new();
    list.push(cut(input, start, pos));
    let ghost whole = from_part(chars@, at as int)->0;
    assert(texts(list@) =~= seq![chars@.subrange(start as int, pos as int)]);
    loop
        invariant_except_break
            chars@ == input@,
            at <= pos <= chars.len(),
            texts(list@) + directory_more(chars@, pos as int).0 == whole.0,
            directory_more(chars@, pos as int).1 == whole.1,
        ensures
            at <= pos <= chars.len(),
            texts(list@) == whole.0,
            pos == whole.1,
        decreases chars.len() - pos,
    {
        let next = match read_keyword(chars, pos, ",") {
            Some(next) => next,
            None => {
                assert(texts(list@) + Seq::<Seq<char>>::empty() =~= texts(list@));
                break ;
            },
        };
        let end = match read_directory(chars, next) {
            Some(end) => end,
            None => {
                assert(texts(list@) + Seq::<Seq<char>>::empty() =~= texts(list@));
                break ;
            },
        };
        let name = cut(input, next, end);
        assert(texts(list@.push(name)) + directory_more(chars@, end as int).0 =~= texts(list@) + (
        seq![chars@.subrange(next as int, end as int)] + directory_more(chars@, end as int).0));
        list.push(name);
        pos = end;
    }
    Some((list, pos))
}

fn read_where_part(input: &str, chars: &Vec<char>, at: usize) -> (r: Option<(FilterExpr, usize)>)
    requires
        chars@ == input@,
        at <= chars.len(),
    ensures
        match r {
            Some((expr, end)) => where_part(chars@, at as int) == Some(
                (expr.tuples(), expr.operators(), end as int),
            ) && at <= end <= chars.len(),
            None => where_part(chars@, at as int) is None,
        },
{
    match read_keyword(chars, at, "where") {
        Some(start) => read_filter_expr(input, chars, start),
        None => None,
    }
}

fn read_exec_part(input: &str, chars: &Vec<char>, at: usize) -> (r: Option<(String, usize)>)
    requires
        chars@ == input@,
        at <= chars.len(),
    ensures
        match r {
            Some((command, end)) => exec_part(chars@, at as int) == Some((command@, end as int))
                && at <= end <= chars.len(),
            None => exec_part(chars@, at as int) is None,
        },
{
    let start = match read_keyword(chars, at, "exec") {
        Some(start) => start,
        None => {
            return None;
        },
    };
    let end = scan_until(chars, start, ';');
    if end > start {
        Some((cut(input, start, end), end))
    } else {
        None
    }
}

/// What the grammar reads of a query text, and where it stops reading.
pub struct Reading {
    pub attributes: Seq<Attribute>,
    pub directories: Option<Seq<Seq<char>>>,
    pub filters: Option<(Seq<Triple>, Seq<LogicOp>)>,
    pub command: Option<Seq<char>>,
    pub end: int,
}

/// `select-list from-part? where-part? exec-part?`, read from the start of
/// the text. Every part may be missing; a part that cannot be read is
/// taken as missing, and reading goes on where it would have started.
pub open spec fn query(s: Seq<char>) -> Reading {
    let selected = attribute_list(s, 0);
    let from = from_part(s, selected.1);
    let from_end = match from {
        Some((_, end)) => end,
        None => selected.1,
    };
    let filtered = where_part(s, from_end);
    let where_end = match filtered {
        Some((_, _, end)) => end,
        None => from_end,
    };
    let command = exec_part(s, where_end);
    Reading {
        attributes: selected.0,
        directories: match from {
            Some((list, _)) => Some(list),
            None => None,
        },
        filters: match filtered {
            Some((tuples, operators, _)) => Some((tuples, operators)),
            None => None,
        },
        command: match command {
            Some((text, _)) => Some(text),
            None => None,
        },
        end: match command {
            Some((_, end)) => end,
            None => where_end,
        },
    }
}

/// Whether nothing but white space and at most one semicolon stands at and
/// after `at`.
pub open spec fn terminated(s: Seq<char>, at: int) -> bool {
    let end = skip_spaces(s, at);
    end == s.len() || (0 <= end < s.len() && s[end] == ';' && skip_spaces(s, end + 1) == s.len())
}

/// The parts of a query as they were read.
#[derive(Debug, PartialEq, Eq)]
pub struct Syntax {
    pub attributes: Vec<Attribute>,
    pub directories: Option<Vec<String>>,
    pub filters: Option<FilterExpr>,
    pub command: Option<String>,
}

impl Syntax {
    /// Whether these parts are the ones of a reading.
    pub open spec fn holds(&self, reading: Reading) -> bool {
        &&& self.attributes@ == reading.attributes
        &&& match self.directories {
            Some(list) => reading.directories == Some(texts(list@)),
            None => reading.directories is None,
        }
        &&& match self.filters {
            Some(expr) => reading.filters == Some((expr.tuples(), expr.operators())),
            None => reading.filters is None,
        }
        &&& match self.command {
            Some(text) => reading.command == Some(text@),
            None => reading.command is None,
        }
    }
}

/// Reads a query text. The text must end where the grammar stops reading,
/// but for white space and one semicolon; what else is left is an error.
pub fn parse_query(input: &str) -> (r: Result<Syntax, QueryError>)
    ensures
        match r {
            Ok(syntax) => terminated(input@, query(input@).end) && syntax.holds(query(input@)),
            Err(QueryError::SyntaxError { remainder }) => !terminated(input@, query(input@).end)
                && remainder@ == input@.subrange(query(input@).end, input@.len() as int),
            Err(QueryError::InvalidFilter(_)) => false,
        },
{
    let chars = to_chars(input);
    let n = chars.len();
    let (attributes, selected_end) = read_attribute_list(&chars, 0);
    let (directories, from_end) = match read_from_part(input, &chars, selected_end) {
        Some((list, end)) => (Some(list), end),
        None => (None, selected_end),
    };
    let (filters, where_end) = match read_where_part(input, &chars, from_end) {
        Some((expr, end)) => (Some(expr), end),
        None => (None, from_end),
    };
    let (command, end) = match read_exec_part(input, &chars, where_end) {
        Some((text, end)) => (Some(text), end),
        None => (None, where_end),
    };
    let rest = skip(&chars, end);
    if rest == n || (chars[rest] == ';' && skip(&chars, rest + 1) == n) {
        Ok(Syntax { attributes, directories, filters, command })
    } else {
        Err(QueryError::SyntaxError { remainder: cut(input, end, n) })
    }
}

} // verus!
