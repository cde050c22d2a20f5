//! The vocabulary shared by every predicate: attributes, comparison
//! operators, build errors, and the entry a predicate is evaluated against.

use vstd::prelude::*;
use vstd::string::StringExecFns;

verus! {

/// A comparison operator of the query language.
#[derive(Clone, Copy, Debug, PartialEq, Eq, Structural)]
pub enum CompOp {
    Lower,
    LowerEqual,
    Equal,
    Unequal,
    GreaterEqual,
    Greater,
    Like,
    Unlike,
}

/// What a filter or a display column inspects.
#[derive(Clone, Copy, Debug, PartialEq, Eq, Structural)]
pub enum Attribute {
    Name,
    Size,
    Mtime,
    Ctime,
    Atime,
    Filetype,
    Mimetype,
    Inode,
    Basename,
    Uid,
    Gid,
}

/// How the file system classifies an entry. A symbolic link is a `Link`
/// whatever it points to, also when it points to nothing.
#[derive(Clone, Copy, Debug, PartialEq, Eq, Structural)]
pub enum FileKind {
    File,
    Dir,
    Link,
    BlockDevice,
    Fifo,
    Socket,
    Other,
}

/// What the file system reports of one entry. A time is in whole seconds
/// since the Unix epoch, and `None` where the platform does not record it.
#[derive(Clone, Copy, Debug, PartialEq, Eq)]
pub struct Metadata {
    pub kind: FileKind,
    pub len: u64,
    pub modified: Option<u64>,
    pub created: Option<u64>,
    pub accessed: Option<u64>,
    pub inode: u64,
    pub uid: u32,
    pub gid: u32,
}

/// One visited file, as the predicates see it. `path` and `basename` are
/// `None` when the name is not valid Unicode; `metadata` is `None` when it
/// could not be read.
#[derive(Debug, PartialEq, Eq)]
pub struct Entry {
    pub path: Option<String>,
    pub basename: Option<String>,
    pub metadata: Option<Metadata>,
}

/// Why a predicate could not be built. An error about a parameter holds
/// the text of that parameter.
#[derive(Debug, PartialEq, Eq)]
pub enum FilterError {
    /// The operator has no meaning for the attribute.
    UnsupportedOperatorError { attribute: Attribute, operator: CompOp },
    /// The attribute can be displayed but not filtered on.
    UnimplementedAttributeError { attribute: Attribute },
    /// The parameter is not a regular expression the engine accepts.
    InvalidRegexError { parameter: String },
    /// The parameter is not a number followed by one of `b k M G T`.
    InvalidSizeLiteralError { parameter: String },
    /// The parameter is none of the supported time forms.
    InvalidTimeLiteralError { parameter: String },
    /// The parameter names no file type.
    InvalidFiletypeError { parameter: String },
    /// The parameter is not an unsigned 32-bit number.
    InvalidIdError { parameter: String },
    /// A logic expression lacks its left side, its operator or its right side.
    MalformedExpressionError,
    /// The system clock could not be read as a time since the Unix epoch.
    ClockError,
}

/// Why a query text could not be compiled.
#[derive(Debug, PartialEq, Eq)]
pub enum QueryError {
    /// The grammar could not read the text to its end; `remainder` is what
    /// it left unread.
    SyntaxError { remainder: String },
    /// The text follows the grammar, but a filter in it has no meaning.
    InvalidFilter(FilterError),
}

impl CompOp {
    /// The five operators that order numbers: `< <= == >= >`.
    pub open spec fn is_ordering(self) -> bool {
        self == CompOp::Lower || self == CompOp::LowerEqual || self == CompOp::Equal
            || self == CompOp::GreaterEqual || self == CompOp::Greater
    }

    /// `==` and `not=`, the operators of the owner and group ids.
    pub open spec fn is_identity(self) -> bool {
        self == CompOp::Equal || self == CompOp::Unequal
    }

    /// `==`, `~` and `not~`, the operators of the two name attributes.
    pub open spec fn is_textual(self) -> bool {
        self == CompOp::Equal || self == CompOp::Like || self == CompOp::Unlike
    }

    pub fn ordering(self) -> (r: bool)
        ensures
            r == self.is_ordering(),
    {
        match self {
            CompOp::Lower | CompOp::LowerEqual | CompOp::Equal | CompOp::GreaterEqual
            | CompOp::Greater => true,
            _ => false,
        }
    }

    pub fn identity(self) -> (r: bool)
        ensures
            r == self.is_identity(),
    {
        match self {
            CompOp::Equal | CompOp::Unequal => true,
            _ => false,
        }
    }
}

impl Attribute {
    /// The three attributes that hold a time.
    pub open spec fn is_time(self) -> bool {
        self == Attribute::Mtime || self == Attribute::Ctime || self == Attribute::Atime
    }

    /// The two attributes that hold text.
    pub open spec fn is_name(self) -> bool {
        self == Attribute::Name || self == Attribute::Basename
    }

    pub fn time(self) -> (r: bool)
        ensures
            r == self.is_time(),
    {
        match self {
            Attribute::Mtime | Attribute::Ctime | Attribute::Atime => true,
            _ => false,
        }
    }
}

/// The legality table: which operator may stand beside which attribute in a
/// filter. `Filetype` takes any operator and ignores it; `Mimetype` and
/// `Inode` take none.
pub open spec fn legal(attribute: Attribute, operator: CompOp) -> bool {
    match attribute {
        Attribute::Name | Attribute::Basename => operator.is_textual(),
        Attribute::Size | Attribute::Mtime | Attribute::Ctime | Attribute::Atime =>
            operator.is_ordering(),
        Attribute::Filetype => true,
        Attribute::Uid | Attribute::Gid => operator.is_identity(),
        Attribute::Mimetype | Attribute::Inode => false,
    }
}

/// The error that an illegal pair is rejected with.
pub open spec fn legality_error(attribute: Attribute, operator: CompOp) -> FilterError {
    match attribute {
        Attribute::Mimetype | Attribute::Inode => FilterError::UnimplementedAttributeError {
            attribute,
        },
        _ => FilterError::UnsupportedOperatorError { attribute, operator },
    }
}

/// A typed, immutable test over one entry.
pub trait Filter {
    /// Whether the entry passes. An attribute that the entry cannot supply
    /// makes the predicate false.
    spec fn matches(&self, entry: &Entry) -> bool;

    fn test(&self, entry: &Entry) -> (r: bool)
        ensures
            r == self.matches(entry),
    ;
}

impl Attribute {
    /// The word of the query language for the attribute.
    pub open spec fn word(self) -> Seq<char> {
        match self {
            Attribute::Name => "name"@,
            Attribute::Size => "size"@,
            Attribute::Mtime => "mtime"@,
            Attribute::Ctime => "ctime"@,
            Attribute::Atime => "atime"@,
            Attribute::Filetype => "filetype"@,
            Attribute::Mimetype => "mimetype"@,
            Attribute::Inode => "inode"@,
            Attribute::Basename => "basename"@,
            Attribute::Uid => "uid"@,
            Attribute::Gid => "gid"@,
        }
    }

    pub fn as_str(self) -> (r: &'static str)
        ensures
            r@ == self.word(),
    {
        match self {
            Attribute::Name => "name",
            Attribute::Size => "size",
            Attribute::Mtime => "mtime",
            Attribute::Ctime => "ctime",
            Attribute::Atime => "atime",
            Attribute::Filetype => "filetype",
            Attribute::Mimetype => "mimetype",
            Attribute::Inode => "inode",
            Attribute::Basename => "basename",
            Attribute::Uid => "uid",
            Attribute::Gid => "gid",
        }
    }
}

impl CompOp {
    /// The token of the query language for the operator.
    pub open spec fn token(self) -> Seq<char> {
        match self {
            CompOp::Lower => "<"@,
            CompOp::LowerEqual => "<="@,
            CompOp::Equal => "=="@,
            CompOp::Unequal => "not="@,
            CompOp::GreaterEqual => ">="@,
            CompOp::Greater => ">"@,
            CompOp::Like => "~"@,
            CompOp::Unlike => "not~"@,
        }
    }

    pub fn as_str(self) -> (r: &'static str)
        ensures
            r@ == self.token(),
    {
        match self {
            CompOp::Lower => "<",
            CompOp::LowerEqual => "<=",
            CompOp::Equal => "==",
            CompOp::Unequal => "not=",
            CompOp::GreaterEqual => ">=",
            CompOp::Greater => ">",
            CompOp::Like => "~",
            CompOp::Unlike => "not~",
        }
    }
}

impl FilterError {
    /// Whether this is the error of `text` being no regular expression.
    pub open spec fn is_invalid_regex(self, text: Seq<char>) -> bool {
        match self {
            FilterError::InvalidRegexError { parameter } => parameter@ == text,
            _ => false,
        }
    }

    /// Whether this is the error of `text` being no size.
    pub open spec fn is_invalid_size(self, text: Seq<char>) -> bool {
        match self {
            FilterError::InvalidSizeLiteralError { parameter } => parameter@ == text,
            _ => false,
        }
    }

    /// Whether this is the error of `text` being no time.
    pub open spec fn is_invalid_time(self, text: Seq<char>) -> bool {
        match self {
            FilterError::InvalidTimeLiteralError { parameter } => parameter@ == text,
            _ => false,
        }
    }

    /// Whether this is the error of `text` naming no file type.
    pub open spec fn is_invalid_filetype(self, text: Seq<char>) -> bool {
        match self {
            FilterError::InvalidFiletypeError { parameter } => parameter@ == text,
            _ => false,
        }
    }

    /// Whether this is the error of `text` being no id.
    pub open spec fn is_invalid_id(self, text: Seq<char>) -> bool {
        match self {
            FilterError::InvalidIdError { parameter } => parameter@ == text,
            _ => false,
        }
    }

    /// What the error says to the user.
    pub open spec fn text(self) -> Seq<char> {
        match self {
            FilterError::UnsupportedOperatorError { attribute, operator } => "Operator "@
                + operator.token() + " is not implemented for attribute "@ + attribute.word()
                + "."@,
            FilterError::UnimplementedAttributeError { attribute } => "Filtering on attribute "@
                + attribute.word() + " is not yet implemented."@,
            FilterError::InvalidRegexError { parameter } => "The parameter "@ + parameter@
                + " is not a valid regular expression."@,
            FilterError::InvalidSizeLiteralError { parameter } => "The parameter "@ + parameter@
                + " is not a size: a number followed by one of b, k, M, G, T."@,
            FilterError::InvalidTimeLiteralError { parameter } => "Could not parse the time "@
                + parameter@
                + ". Supported formats are: YYYY-MM-DD HH:MM, YYYY-MM-DD, HH:MM, and a number followed by one of s, m, h, D, W, M, Y."@,
            FilterError::InvalidFiletypeError { parameter } => parameter@
                + " is not a valid filetype. Choose either of directory, link or file."@,
            FilterError::InvalidIdError { parameter } => "The parameter "@ + parameter@
                + " is not an unsigned 32-bit number."@,
            FilterError::MalformedExpressionError =>
                "A logic expression needs a left hand side, and an operator together with a right hand side."@,
            FilterError::ClockError => "The system clock shows no time since 1970."@,
        }
    }

    pub fn message(&self) -> (r: String)
        ensures
            r@ == self.text(),
    {
        match self {
            FilterError::UnsupportedOperatorError { attribute, operator } => {
                let mut text = String::from_str("Operator ");
                text.append(operator.as_str());
                text.append(" is not implemented for attribute ");
                text.append(attribute.as_str());
                text.append(".");
                text
            },
            FilterError::UnimplementedAttributeError { attribute } => {
                let mut text = String::from_str("Filtering on attribute ");
                text.append(attribute.as_str());
                text.append(" is not yet implemented.");
                text
            },
            FilterError::InvalidRegexError { parameter } => {
                let mut text = String::from_str("The parameter ");
                text.append(parameter.as_str());
                text.append(" is not a valid regular expression.");
                text
            },
            FilterError::InvalidSizeLiteralError { parameter } => {
                let mut text = String::from_str("The parameter ");
                text.append(parameter.as_str());
                text.append(" is not a size: a number followed by one of b, k, M, G, T.");
                text
            },
            FilterError::InvalidTimeLiteralError { parameter } => {
                let mut text = String::from_str("Could not parse the time ");
                text.append(parameter.as_str());
                text.append(
                    ". Supported formats are: YYYY-MM-DD HH:MM, YYYY-MM-DD, HH:MM, and a number followed by one of s, m, h, D, W, M, Y.",
                );
                text
            },
            FilterError::InvalidFiletypeError { parameter } => {
                let mut text = String::from_str(parameter.as_str());
                text.append(" is not a valid filetype. Choose either of directory, link or file.");
                text
            },
            FilterError::InvalidIdError { parameter } => {
                let mut text = String::from_str("The parameter ");
                text.append(parameter.as_str());
                text.append(" is not an unsigned 32-bit number.");
                text
            },
            FilterError::MalformedExpressionError => String::from_str(
                "A logic expression needs a left hand side, and an operator together with a right hand side.",
            ),
            FilterError::ClockError => String::from_str(
                "The system clock shows no time since 1970.",
            ),
        }
    }
}

impl QueryError {
    /// What the error says to the user. A syntax error shows the text that
    /// could not be read.
    pub open spec fn text(self) -> Seq<char> {
        match self {
            QueryError::SyntaxError { remainder } => "Could not parse from here -> "@ + remainder@,
            QueryError::InvalidFilter(e) => e.text(),
        }
    }

    pub fn message(&self) -> (r: String)
        ensures
            r@ == self.text(),
    {
        match self {
            QueryError::SyntaxError { remainder } => {
                let mut text = String::from_str("Could not parse from here -> ");
                text.append(remainder.as_str());
                text
            },
            QueryError::InvalidFilter(e) => e.message(),
        }
    }
}

} // verus!
