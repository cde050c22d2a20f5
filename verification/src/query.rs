//! The compiled query, and the decisions of a search: where to walk, which
//! entries to enter and which to report.

use crate::filter::{Attribute, Entry, QueryError};
use crate::filter_tree::{last_failure, FilterTree};
use crate::parser::{parse_query, query, terminated, texts, Syntax};
use crate::pattern::{compile, is_match, pattern_compiles, pattern_matches};
use crate::text::{parse_unsigned, to_chars, unsigned_literal};
use vstd::prelude::*;
use vstd::string::StringExecFns;

verus! {

/// A compiled query: the columns to show, the directories to search, the
/// chain of predicates an entry must pass, and the command to run on each
/// entry that passes.
pub struct Query {
    attributes: Vec<Attribute>,
    directories: Vec<String>,
    filters: FilterTree,
    command: Option<String>,
    machine_mode: bool,
}

/// What a query holds.
pub struct QueryView {
    pub attributes: Seq<Attribute>,
    pub directories: Seq<Seq<char>>,
    pub filters: FilterTree,
    pub command: Option<Seq<char>>,
    pub machine_mode: bool,
}

impl View for Query {
    type V = QueryView;

    closed spec fn view(&self) -> QueryView {
        QueryView {
            attributes: self.attributes@,
            directories: texts(self.directories@),
            filters: self.filters,
            command: match self.command {
                Some(text) => Some(text@),
                None => None,
            },
            machine_mode: self.machine_mode,
        }
    }
}

/// The columns of a query that names these: `name` where it names none.
pub open spec fn columns_or_default(attributes: Seq<Attribute>) -> Seq<Attribute> {
    if attributes.len() == 0 {
        seq![Attribute::Name]
    } else {
        attributes
    }
}

/// The directories of a query: the current one where it has no from-part.
pub open spec fn directories_or_default(directories: Option<Seq<Seq<char>>>) -> Seq<Seq<char>> {
    match directories {
        Some(list) => list,
        None => seq!["."@],
    }
}

/// How a directory is walked.
#[derive(Clone, Copy, Debug, PartialEq, Eq, Structural)]
pub enum Walk {
    /// Every entry below the directory is visited.
    Raw,
    /// Entries are entered only where `enters` allows it.
    Guarded { same_device: bool, ignore_hidden: bool },
}

/// What a search is to do, decided once before it starts.
#[derive(Clone, Copy, Debug, PartialEq, Eq, Structural)]
pub struct Plan {
    pub max_depth: usize,
    pub color_mode: bool,
    pub walk: Walk,
}

/// What is to be done with a visited entry.
#[derive(Clone, Copy, Debug, PartialEq, Eq, Structural)]
pub enum Action {
    Skip,
    Emit,
}

/// Whether a path leads through a hidden file or directory: whether the
/// text `/.` stands in it.
pub open spec fn hidden_path(path: Seq<char>) -> bool {
    exists|i: int|
        #![trigger path[i]]
        0 <= i && i + 1 < path.len() && path[i] == '/' && path[i + 1] == '.'
}

/// Whether an entry is hidden. An entry whose path is not valid Unicode is
/// not.
pub fn is_hidden(entry: &Entry) -> (r: bool)
    ensures
        r == match entry.path {
            Some(path) => hidden_path(path@),
            None => false,
        },
{
    let chars = match &entry.path {
        Some(path) => to_chars(path.as_str()),
        None => {
            return false;
        },
    };
    if chars.len() < 2 {
        return false;
    }
    let mut i: usize = 0;
    while i + 1 < chars.len()
        invariant
            i + 1 <= chars.len(),
            entry.path matches Some(path) && path@ == chars@,
            forall|k: int|
                #![trigger chars@[k]]
                0 <= k < i ==> !(chars@[k] == '/' && chars@[k + 1] == '.'),
        decreases chars.len() - i,
    {
        if chars[i] == '/' && chars[i + 1] == '.' {
            return true;
        }
        i += 1;
    }
    false
}

impl Walk {
    /// Whether a guarded walk enters an entry: not where hidden entries are
    /// ignored and it is hidden, and not where it lies on another device
    /// than the directory the walk started in. `on_same_device` says
    /// whether the entry lies on that device; the caller passes `false` for
    /// an entry whose device it cannot tell.
    pub fn enters(&self, entry: &Entry, on_same_device: bool) -> (r: bool)
        ensures
            r == match *self {
                Walk::Raw => true,
                Walk::Guarded { same_device, ignore_hidden } => (!same_device || on_same_device)
                    && !(ignore_hidden && match entry.path {
                    Some(path) => hidden_path(path@),
                    None => false,
                }),
            },
    {
        match *self {
            Walk::Raw => true,
            Walk::Guarded { same_device, ignore_hidden } => {
                if same_device && !on_same_device {
                    false
                } else if ignore_hidden {
                    !is_hidden(entry)
                } else {
                    true
                }
            },
        }
    }
}

impl Query {
    /// Puts a query together. Missing or empty columns become `name`, a
    /// missing directory list the current directory, a missing chain the
    /// empty chain.
    pub fn new(
        attributes: Option<Vec<Attribute>>,
        directories: Option<Vec<String>>,
        filters: Option<FilterTree>,
        command: Option<String>,
    ) -> (r: Query)
        ensures
            r@.attributes == columns_or_default(
                match attributes {
                    Some(list) => list@,
                    None => Seq::empty(),
                },
            ),
            r@.directories == directories_or_default(
                match directories {
                    Some(list) => Some(texts(list@)),
                    None => None,
                },
            ),
            match filters {
                Some(tree) => r@.filters == tree,
                None => r@.filters.is_empty(),
            },
            r@.command == match command {
                Some(text) => Some(text@),
                None => None,
            },
            !r@.machine_mode,
    {
        let mut attributes = match attributes {
            Some(list) => list,
            None => Vec::new(),
        };
        if attributes.len() == 0 {
            attributes.push(Attribute::Name);
            assert(attributes@ =~= seq![Attribute::Name]);
        }
        let directories = match directories {
            Some(list) => list,
            None => {
                let mut list: Vec<String> = Vec::new();
                list.push(String::from_str("."));
                assert(texts(list@) =~= seq!["."@]);
                list
            },
        };
        let filters = match filters {
            Some(tree) => tree,
            None => FilterTree::empty(),
        };
        Query { attributes, directories, filters, command, machine_mode: false }
    }

    /// What compiling a text gives. A text that the grammar does not read
    /// to its end gives a syntax error with what was left unread. Any other
    /// text gives its columns, directories and command, with the defaults
    /// for what is missing, and the chain built of its filters, or else the
    /// error of the last filter that has no predicate.
    pub open spec fn compiled(text: Seq<char>, r: Result<Query, QueryError>) -> bool {
        let reading = query(text);
        match r {
            Ok(compiled) => {
                &&& terminated(text, reading.end)
                &&& compiled@.attributes == columns_or_default(reading.attributes)
                &&& compiled@.directories == directories_or_default(reading.directories)
                &&& compiled@.command == reading.command
                &&& !compiled@.machine_mode
                &&& match reading.filters {
                    Some((tuples, operators)) => compiled@.filters.built_from(tuples, operators),
                    None => compiled@.filters.is_empty(),
                }
            },
            Err(QueryError::SyntaxError { remainder }) => !terminated(text, reading.end)
                && remainder@ == text.subrange(reading.end, text.len() as int),
            Err(QueryError::InvalidFilter(e)) => terminated(text, reading.end) && match reading.filters {
                Some((tuples, operators)) => last_failure(tuples, e),
                None => false,
            },
        }
    }

    /// Compiles a query text. The text is read first; a text that does not
    /// follow the grammar to its end is refused before any filter is built.
    pub fn parse(inp: &str) -> (r: Result<Query, QueryError>)
        ensures
            Self::compiled(inp@, r),
    {
        let Syntax { attributes, directories, filters, command } = match parse_query(inp) {
            Ok(syntax) => syntax,
            Err(e) => {
                return Err(e);
            },
        };
        let filters = match filters {
            Some(expr) => match FilterTree::build(expr) {
                Ok(tree) => Some(tree),
                Err(e) => {
                    return Err(QueryError::InvalidFilter(e));
                },
            },
            None => None,
        };
        Ok(Query::new(Some(attributes), directories, filters, command))
    }

    pub fn attributes(&self) -> (r: &Vec<Attribute>)
        ensures
            r@ == self@.attributes,
    {
        &self.attributes
    }

    pub fn directories(&self) -> (r: &Vec<String>)
        ensures
            texts(r@) == self@.directories,
    {
        &self.directories
    }

    pub fn filters(&self) -> (r: &FilterTree)
        ensures
            *r == self@.filters,
    {
        &self.filters
    }

    pub fn command(&self) -> (r: &Option<String>)
        ensures
            match *r {
                Some(text) => self@.command == Some(text@),
                None => self@.command is None,
            },
    {
        &self.command
    }

    pub fn machine_mode(&self) -> (r: bool)
        ensures
            r == self@.machine_mode,
    {
        self.machine_mode
    }

    /// Decides how the search is to run. Machine mode, once asked for,
    /// stays; colour is used only where it was asked for and the output is
    /// a terminal; the walk is guarded as soon as one guard is asked for.
    /// Each directory of the query is then walked by this plan.
    pub fn execute(
        &mut self,
        max_depth: usize,
        machine_mode: bool,
        ignore_hidden: bool,
        same_device: bool,
        color: bool,
        stdout_is_tty: bool,
    ) -> (plan: Plan)
        ensures
            final(self)@ == (QueryView {
                machine_mode: old(self)@.machine_mode || machine_mode,
                ..old(self)@
            }),
            plan.max_depth == max_depth,
            plan.color_mode == (color && stdout_is_tty),
            plan.walk == if same_device || ignore_hidden {
                Walk::Guarded { same_device, ignore_hidden }
            } else {
                Walk::Raw
            },
    {
        if machine_mode {
            self.machine_mode = true;
        }
        let walk = if same_device || ignore_hidden {
            Walk::Guarded { same_device, ignore_hidden }
        } else {
            Walk::Raw
        };
        Plan { max_depth, color_mode: color && stdout_is_tty, walk }
    }

    /// Decides on a visited entry: it is reported exactly when the chain of
    /// predicates accepts it.
    pub fn process_entry(&self, entry: &Entry) -> (r: Action)
        ensures
            (r == Action::Emit) == self@.filters.matches(entry),
            r == Action::Emit || r == Action::Skip,
    {
        if self.filters.test(entry) {
            Action::Emit
        } else {
            Action::Skip
        }
    }
}

/// A query text with a semicolon behind it, unless it is ended already.
pub open spec fn with_semicolon(text: Seq<char>, ended: bool) -> Seq<char> {
    if ended {
        text
    } else {
        text + ";"@
    }
}

/// Appends the semicolon that ends a query, unless the text is ended.
pub fn end_query(inp: &mut String, ended: bool)
    ensures
        final(inp)@ == with_semicolon(old(inp)@, ended),
{
    if !ended {
        inp.append(";");
    }
}

/// Makes sure that a query text ends with a semicolon: a text that the
/// pattern `;\s*$` does not match gets one appended.
pub fn check_semicolon(inp: &mut String)
    ensures
        final(inp)@ == with_semicolon(
            old(inp)@,
            pattern_compiles(";\\s*$"@) && pattern_matches(";\\s*$"@, old(inp)@),
        ),
{
    let ended = match compile(";\\s*$") {
        Ok(pattern) => is_match(&pattern, inp.as_str()),
        Err(_) => false,
    };
    end_query(inp, ended);
}

/// Whether an argument is an unsigned number of 32 bits, as the depth of a
/// search must be.
pub fn is_integer(inp: String) -> (r: Result<(), String>)
    ensures
        match r {
            Ok(_) => unsigned_literal(inp@) is Some,
            Err(message) => unsigned_literal(inp@) is None && message@
                == "The argument does not seem to be an unsigned integer."@,
        },
{
    match parse_unsigned(inp.as_str()) {
        Some(_) => Ok(()),
        None => Err(String::from_str("The argument does not seem to be an unsigned integer.")),
    }
}

/// The line that shows the columns of one entry: the columns with a comma
/// between them. No comma stands at the start of the line, so columns that
/// are empty at its start leave no trace.
pub open spec fn joined(columns: Seq<Seq<char>>) -> Seq<char>
    decreases columns.len(),
{
    if columns.len() == 0 {
        Seq::empty()
    } else if joined(columns.drop_last()).len() == 0 {
        columns.last()
    } else {
        joined(columns.drop_last()) + ","@ + columns.last()
    }
}

/// Joins the columns of one entry into the line to print.
pub fn join_columns(columns: &Vec<String>) -> (line: String)
    ensures
        line@ == joined(texts(columns@)),
{
    let mut line = String::new();
    let mut i: usize = 0;
    assert(texts(columns@).take(0) =~= Seq::<Seq<char>>::empty());
    while i < columns.len()
        invariant
            i <= columns.len(),
            line@ == joined(texts(columns@).take(i as int)),
        decreases columns.len() - i,
    {
        proof {
            let next = texts(columns@).take(i + 1);
            assert(next.drop_last() =~= texts(columns@).take(i as int));
            assert(next.last() == columns@[i as int]@);
        }
        if !line.as_str().is_empty() {
            line.append(",");
        }
        line.append(columns[i].as_str());
        i += 1;
    }
    assert(texts(columns@).take(columns.len() as int) =~= texts(columns@));
    line
}

} // verus!
