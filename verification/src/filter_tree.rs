//! Filter tuples, the predicates built from them, and the chain that joins
//! predicates with `and` and `or`.

use crate::filetype_filter::{filetype_of, FiletypeFilter};
use crate::filter::{legal, legality_error, Attribute, CompOp, Entry, Filter, FilterError};
use crate::gid_filter::GidFilter;
use crate::name_filter::{EqualBasenameFilter, EqualNameFilter};
use crate::parser::{FilterExpr, Triple};
use crate::pattern::pattern_compiles;
use crate::regex_filter::RegexFilter;
use crate::size_filter::{size_literal, SizeFilter};
use crate::text::{parse_unsigned, unsigned_literal};
use crate::time_filter::TimeFilter;
use crate::uid_filter::UidFilter;
use vstd::prelude::*;

verus! {

/// A logic operator between two filters.
#[derive(Clone, Copy, Debug, PartialEq, Eq, Structural)]
pub enum LogicOp {
    And,
    Or,
}

/// One `attribute operator parameter` triple as the grammar read it,
/// before any check of its meaning.
#[derive(Debug, PartialEq, Eq)]
pub struct FilterTuple {
    pub attribute: Attribute,
    pub operator: CompOp,
    pub parameter: String,
}

impl FilterTuple {
    pub fn new(attribute: Attribute, operator: CompOp, parameter: String) -> (r: FilterTuple)
        ensures
            r.attribute == attribute,
            r.operator == operator,
            r.parameter == parameter,
    {
        FilterTuple { attribute, operator, parameter }
    }
}

/// A predicate of any of the kinds the library knows.
pub enum Predicate {
    EqualName(EqualNameFilter),
    EqualBasename(EqualBasenameFilter),
    Regex(RegexFilter),
    Size(SizeFilter),
    Time(TimeFilter),
    Filetype(FiletypeFilter),
    Uid(UidFilter),
    Gid(GidFilter),
}

impl Filter for Predicate {
    open spec fn matches(&self, entry: &Entry) -> bool {
        match self {
            Predicate::EqualName(filter) => filter.matches(entry),
            Predicate::EqualBasename(filter) => filter.matches(entry),
            Predicate::Regex(filter) => filter.matches(entry),
            Predicate::Size(filter) => filter.matches(entry),
            Predicate::Time(filter) => filter.matches(entry),
            Predicate::Filetype(filter) => filter.matches(entry),
            Predicate::Uid(filter) => filter.matches(entry),
            Predicate::Gid(filter) => filter.matches(entry),
        }
    }

    fn test(&self, entry: &Entry) -> (r: bool) {
        match self {
            Predicate::EqualName(filter) => filter.test(entry),
            Predicate::EqualBasename(filter) => filter.test(entry),
            Predicate::Regex(filter) => filter.test(entry),
            Predicate::Size(filter) => filter.test(entry),
            Predicate::Time(filter) => filter.test(entry),
            Predicate::Filetype(filter) => filter.test(entry),
            Predicate::Uid(filter) => filter.test(entry),
            Predicate::Gid(filter) => filter.test(entry),
        }
    }
}

/// What building the predicate of a tuple gives.
///
/// A pair outside the legality table gives its error. Inside the table the
/// attribute picks the kind of predicate, and the parameter is read as that
/// kind demands: as a text, a pattern, a size, a file type or an id, each
/// with its own error, or as a time, for which see `TimeFilter::outcome`.
pub open spec fn creation(
    attribute: Attribute,
    operator: CompOp,
    parameter: Seq<char>,
    r: Result<Predicate, FilterError>,
) -> bool {
    if !legal(attribute, operator) {
        r == Err::<Predicate, FilterError>(legality_error(attribute, operator))
    } else {
        match attribute {
            Attribute::Name | Attribute::Basename => if operator == CompOp::Equal {
                match r {
                    Ok(Predicate::EqualName(filter)) => attribute == Attribute::Name
                        && filter.text() == parameter,
                    Ok(Predicate::EqualBasename(filter)) => attribute == Attribute::Basename
                        && filter.text() == parameter,
                    _ => false,
                }
            } else {
                match r {
                    Ok(Predicate::Regex(filter)) => pattern_compiles(parameter)
                        && filter.attribute() == attribute && filter.pattern() == parameter
                        && filter.negated() == (operator == CompOp::Unlike),
                    Err(e) => e.is_invalid_regex(parameter) && !pattern_compiles(parameter),
                    _ => false,
                }
            },
            Attribute::Size => match r {
                Ok(Predicate::Size(filter)) => size_literal(parameter) == Some(
                    filter.size() as nat,
                ) && filter.comp_op() == operator,
                Err(e) => e.is_invalid_size(parameter) && size_literal(parameter) is None,
                _ => false,
            },
            Attribute::Mtime | Attribute::Ctime | Attribute::Atime => match r {
                Ok(Predicate::Time(filter)) => TimeFilter::outcome(
                    attribute,
                    operator,
                    parameter,
                    Ok(filter),
                ),
                Err(e) => TimeFilter::outcome(attribute, operator, parameter, Err(e)),
                _ => false,
            },
            Attribute::Filetype => match r {
                Ok(Predicate::Filetype(filter)) => filetype_of(parameter) == Some(
                    filter.filetype(),
                ),
                Err(e) => e.is_invalid_filetype(parameter) && filetype_of(parameter) is None,
                _ => false,
            },
            Attribute::Uid => match r {
                Ok(Predicate::Uid(filter)) => unsigned_literal(parameter) == Some(filter.uid())
                    && filter.comp_op() == operator,
                Err(e) => e.is_invalid_id(parameter) && unsigned_literal(parameter) is None,
                _ => false,
            },
            Attribute::Gid => match r {
                Ok(Predicate::Gid(filter)) => unsigned_literal(parameter) == Some(filter.gid())
                    && filter.comp_op() == operator,
                Err(e) => e.is_invalid_id(parameter) && unsigned_literal(parameter) is None,
                _ => false,
            },
            Attribute::Mimetype | Attribute::Inode => false,
        }
    }
}

/// Builds the predicate of a tuple, or says why there is none.
pub fn create_filter(inp: FilterTuple) -> (r: Result<Predicate, FilterError>)
    ensures
        creation(inp.attribute, inp.operator, inp.parameter@, r),
{
    match inp.attribute {
        Attribute::Name => match inp.operator {
            CompOp::Equal => Ok(Predicate::EqualName(EqualNameFilter::new(inp.parameter.as_str()))),
            _ => match RegexFilter::new(&inp) {
                Ok(filter) => Ok(Predicate::Regex(filter)),
                Err(e) => Err(e),
            },
        },
        Attribute::Basename => match inp.operator {
            CompOp::Equal => Ok(
                Predicate::EqualBasename(EqualBasenameFilter::new(inp.parameter.as_str())),
            ),
            _ => match RegexFilter::new(&inp) {
                Ok(filter) => Ok(Predicate::Regex(filter)),
                Err(e) => Err(e),
            },
        },
        Attribute::Size => match SizeFilter::new(inp.operator, inp.parameter.as_str()) {
            Ok(filter) => Ok(Predicate::Size(filter)),
            Err(e) => Err(e),
        },
        Attribute::Mtime | Attribute::Atime | Attribute::Ctime => match TimeFilter::new(
            inp.attribute,
            inp.operator,
            inp.parameter.as_str(),
        ) {
            Ok(filter) => Ok(Predicate::Time(filter)),
            Err(e) => Err(e),
        },
        Attribute::Filetype => match FiletypeFilter::new(inp.parameter.as_str()) {
            Ok(filter) => Ok(Predicate::Filetype(filter)),
            Err(e) => Err(e),
        },
        Attribute::Uid => {
            if !inp.operator.identity() {
                return Err(
                    FilterError::UnsupportedOperatorError {
                        attribute: inp.attribute,
                        operator: inp.operator,
                    },
                );
            }
            match parse_unsigned(inp.parameter.as_str()) {
                Some(uid) => match UidFilter::new(inp.operator, uid) {
                    Ok(filter) => Ok(Predicate::Uid(filter)),
                    Err(e) => Err(e),
                },
                None => Err(FilterError::InvalidIdError { parameter: inp.parameter }),
            }
        },
        Attribute::Gid => {
            if !inp.operator.identity() {
                return Err(
                    FilterError::UnsupportedOperatorError {
                        attribute: inp.attribute,
                        operator: inp.operator,
                    },
                );
            }
            match parse_unsigned(inp.parameter.as_str()) {
                Some(gid) => match GidFilter::new(inp.operator, gid) {
                    Ok(filter) => Ok(Predicate::Gid(filter)),
                    Err(e) => Err(e),
                },
                None => Err(FilterError::InvalidIdError { parameter: inp.parameter }),
            }
        },
        Attribute::Mimetype | Attribute::Inode => Err(
            FilterError::UnimplementedAttributeError { attribute: inp.attribute },
        ),
    }
}

/// Whether building the predicate of a tuple may fail with `e`.
pub open spec fn fails_with(tuple: Triple, e: FilterError) -> bool {
    creation(tuple.0, tuple.1, tuple.2, Err(e))
}

/// Whether building the predicate of a tuple may succeed.
pub open spec fn can_build(tuple: Triple) -> bool {
    exists|predicate: Predicate| #[trigger] creation(tuple.0, tuple.1, tuple.2, Ok(predicate))
}

/// Whether `e` is the error of the last tuple that has no predicate: that
/// tuple fails with it, and every tuple behind it can be built.
pub open spec fn last_failure(tuples: Seq<Triple>, e: FilterError) -> bool {
    exists|i: int|
        0 <= i < tuples.len() && #[trigger] fails_with(tuples[i], e) && forall|j: int|
            i < j < tuples.len() ==> can_build(#[trigger] tuples[j])
}

/// A chain of predicates joined by logic operators, read from the left:
/// the head, then an operator, then the rest of the chain as one operand.
/// A chain therefore leans to the right: `a and b or c` is `a` and
/// (`b` or `c`). The chain without a head is empty and accepts everything.
pub struct FilterTree {
    lhs: Option<Predicate>,
    lop: Option<LogicOp>,
    rhs: Option<Box<FilterTree>>,
}

/// The shape every chain has: nothing follows a missing head, and an
/// operator and a rest come together or not at all.
pub open spec fn well_shaped(head: bool, op: bool, tail: bool) -> bool {
    (head || (!op && !tail)) && op == tail
}

impl FilterTree {
    #[verifier::type_invariant]
    spec fn well_formed(self) -> bool {
        well_shaped(self.lhs is Some, self.lop is Some, self.rhs is Some)
    }

    /// The first predicate of the chain.
    pub closed spec fn head(&self) -> Option<Predicate> {
        self.lhs
    }

    /// The operator between the head and the rest.
    pub closed spec fn op(&self) -> Option<LogicOp> {
        self.lop
    }

    /// The rest of the chain.
    pub closed spec fn tail(&self) -> Option<FilterTree> {
        match self.rhs {
            Some(rest) => Some(*rest),
            None => None,
        }
    }

    /// Whether the chain accepts an entry.
    pub open spec fn matches(&self, entry: &Entry) -> bool
        decreases self,
    {
        match self.head() {
            None => true,
            Some(head) => match (self.op(), self.tail()) {
                (Some(LogicOp::And), Some(rest)) => head.matches(entry) && rest.matches(entry),
                (Some(LogicOp::Or), Some(rest)) => head.matches(entry) || rest.matches(entry),
                _ => head.matches(entry),
            },
        }
    }

    /// Whether the chain is the one of these tuples and operators: each
    /// tuple has given its predicate, in order, and each operator stands
    /// between the predicates of the tuples it stood between.
    pub open spec fn built_from(&self, tuples: Seq<Triple>, operators: Seq<LogicOp>) -> bool
        decreases tuples.len(),
    {
        &&& tuples.len() == operators.len() + 1
        &&& self.head() matches Some(head)
        &&& creation(tuples[0].0, tuples[0].1, tuples[0].2, Ok(head))
        &&& if tuples.len() == 1 {
            self.op() is None && self.tail() is None
        } else {
            self.op() == Some(operators[0]) && match self.tail() {
                Some(rest) => rest.built_from(tuples.skip(1), operators.skip(1)),
                None => false,
            }
        }
    }

    /// Whether the chain is the empty one: it has no head, no operator and
    /// no rest.
    pub open spec fn is_empty(&self) -> bool {
        self.head() is None && self.op() is None && self.tail() is None
    }

    /// The empty chain.
    pub fn empty() -> (r: FilterTree)
        ensures
            r.is_empty(),
    {
        FilterTree { lhs: None, lop: None, rhs: None }
    }

    /// Says whether the chain is empty, and with it the shape that every
    /// chain has: nothing follows a missing head, and an operator and a
    /// rest come together or not at all.
    pub fn has_no_filter(&self) -> (r: bool)
        ensures
            r == self.is_empty(),
            r == (self.head() is None),
            well_shaped(self.head() is Some, self.op() is Some, self.tail() is Some),
    {
        proof {
            use_type_invariant(self);
        }
        self.lhs.is_none()
    }

    /// Every tuple of a chain that was built can be built.
    pub proof fn lemma_built(&self, tuples: Seq<Triple>, operators: Seq<LogicOp>, j: int)
        requires
            self.built_from(tuples, operators),
            0 <= j < tuples.len(),
        ensures
            can_build(tuples[j]),
        decreases tuples.len(),
    {
        if j > 0 {
            let rest = self.tail()->0;
            rest.lemma_built(tuples.skip(1), operators.skip(1), j - 1);
            assert(tuples.skip(1)[j - 1] == tuples[j]);
        }
    }

    /// Builds the chain of a filter expression, from its last tuple to its
    /// first. The first tuple met on that way that has no predicate ends
    /// the work with its error.
    pub fn build(expr: FilterExpr) -> (r: Result<FilterTree, FilterError>)
        ensures
            match r {
                Ok(tree) => tree.built_from(expr.tuples(), expr.operators()),
                Err(e) => last_failure(expr.tuples(), e),
            },
        decreases expr,
    {
        let ghost tuples = expr.tuples();
        let ghost operators = expr.operators();
        let FilterExpr { tuple, operator, rest } = expr;
        let ghost first = (tuple.attribute, tuple.operator, tuple.parameter@);
        match (operator, rest) {
            (Some(operator), Some(rest)) => {
                let ghost rest_tuples = rest.tuples();
                let ghost rest_operators = rest.operators();
                assert(tuples.skip(1) =~= rest_tuples);
                assert(operators.skip(1) =~= rest_operators);
                let tail = match Self::build(*rest) {
                    Ok(tail) => tail,
                    Err(e) => {
                        proof {
                            let i = choose|i: int|
                                0 <= i < rest_tuples.len() && #[trigger] fails_with(
                                    rest_tuples[i],
                                    e,
                                ) && forall|j: int|
                                    i < j < rest_tuples.len() ==> can_build(
                                        #[trigger] rest_tuples[j],
                                    );
                            assert(tuples[i + 1] == rest_tuples[i]);
                            assert forall|j: int| i + 1 < j < tuples.len() implies can_build(
                                #[trigger] tuples[j],
                            ) by {
                                assert(tuples[j] == rest_tuples[j - 1]);
                            }
                            assert(fails_with(tuples[i + 1], e));
                        }
                        return Err(e);
                    },
                };
                let ghost built = tail;
                match Self::new(Some(tuple), Some(operator), Some(Box::new(tail))) {
                    Ok(tree) => Ok(tree),
                    Err(e) => {
                        proof {
                            assert(tuples[0] == first);
                            assert forall|j: int| 0 < j < tuples.len() implies can_build(
                                #[trigger] tuples[j],
                            ) by {
                                built.lemma_built(rest_tuples, rest_operators, j - 1);
                                assert(tuples[j] == rest_tuples[j - 1]);
                            }
                            assert(fails_with(tuples[0], e));
                        }
                        Err(e)
                    },
                }
            },
            _ => {
                assert(tuples =~= seq![first]);
                match Self::new(Some(tuple), None, None) {
                    Ok(tree) => Ok(tree),
                    Err(e) => {
                        proof {
                            assert(tuples[0] == first);
                            assert(fails_with(tuples[0], e));
                        }
                        Err(e)
                    },
                }
            },
        }
    }

    /// Joins a predicate, an operator and a chain. The three must have the
    /// shape of a chain.
    pub fn join(head: Option<Predicate>, op: Option<LogicOp>, tail: Option<Box<FilterTree>>) -> (r:
        Result<FilterTree, FilterError>)
        ensures
            match r {
                Ok(tree) => well_shaped(head is Some, op is Some, tail is Some) && tree.head()
                    == head && tree.op() == op && tree.tail() == match tail {
                    Some(rest) => Some(*rest),
                    None => None,
                },
                Err(e) => !well_shaped(head is Some, op is Some, tail is Some) && e
                    == FilterError::MalformedExpressionError,
            },
    {
        if head.is_none() && (op.is_some() || tail.is_some()) {
            return Err(FilterError::MalformedExpressionError);
        }
        if op.is_some() != tail.is_some() {
            return Err(FilterError::MalformedExpressionError);
        }
        Ok(FilterTree { lhs: head, lop: op, rhs: tail })
    }

    /// Builds the predicate of a tuple and joins it with an operator and a
    /// chain. The shape is checked before the predicate is built.
    pub fn new(lhs: Option<FilterTuple>, op: Option<LogicOp>, rhs: Option<Box<FilterTree>>) -> (r:
        Result<FilterTree, FilterError>)
        ensures
            match r {
                Ok(tree) => well_shaped(lhs is Some, op is Some, rhs is Some) && tree.op() == op
                    && tree.tail() == match rhs {
                    Some(rest) => Some(*rest),
                    None => None,
                } && match lhs {
                    Some(tuple) => tree.head() matches Some(head) && creation(
                        tuple.attribute,
                        tuple.operator,
                        tuple.parameter@,
                        Ok(head),
                    ),
                    None => tree.head() is None,
                },
                Err(e) => if !well_shaped(lhs is Some, op is Some, rhs is Some) {
                    e == FilterError::MalformedExpressionError
                } else {
                    lhs matches Some(tuple) && creation(
                        tuple.attribute,
                        tuple.operator,
                        tuple.parameter@,
                        Err(e),
                    )
                },
            },
    {
        if lhs.is_none() && (op.is_some() || rhs.is_some()) {
            return Err(FilterError::MalformedExpressionError);
        }
        if op.is_some() != rhs.is_some() {
            return Err(FilterError::MalformedExpressionError);
        }
        let head = match lhs {
            Some(tuple) => match create_filter(tuple) {
                Ok(predicate) => Some(predicate),
                Err(e) => {
                    return Err(e);
                },
            },
            None => None,
        };
        Self::join(head, op, rhs)
    }

    /// Evaluates the chain on an entry. The head is evaluated first, and
    /// the rest only where the head leaves the outcome open.
    pub fn test(&self, entry: &Entry) -> (r: bool)
        ensures
            r == self.matches(entry),
        decreases self,
    {
        match &self.lhs {
            None => true,
            Some(head) => match (&self.lop, &self.rhs) {
                (Some(LogicOp::And), Some(rest)) => head.test(entry) && rest.test(entry),
                (Some(LogicOp::Or), Some(rest)) => head.test(entry) || rest.test(entry),
                _ => head.test(entry),
            },
        }
    }
}

/// A chain leans to the right: on every entry, `a and b or c` accepts what
/// `a` accepts and `b` or `c` accepts.
pub proof fn law_right_leaning(
    tree: FilterTree,
    middle: FilterTree,
    last: FilterTree,
    a: Predicate,
    b: Predicate,
    c: Predicate,
    entry: Entry,
)
    requires
        tree.head() == Some(a) && tree.op() == Some(LogicOp::And) && tree.tail() == Some(middle),
        middle.head() == Some(b) && middle.op() == Some(LogicOp::Or) && middle.tail() == Some(
            last,
        ),
        last.head() == Some(c) && last.op() is None && last.tail() is None,
    ensures
        tree.matches(&entry) == (a.matches(&entry) && (b.matches(&entry) || c.matches(&entry))),
{
    reveal_with_fuel(FilterTree::matches, 3);
}

/// The empty chain accepts every entry.
pub proof fn law_empty_accepts(tree: FilterTree, entry: Entry)
    requires
        tree.head() is None,
    ensures
        tree.matches(&entry),
{
}

/// Only the pairs of the legality table give a predicate; every other
/// pair gives its error, whatever the parameter.
pub proof fn law_legality(
    attribute: Attribute,
    operator: CompOp,
    parameter: Seq<char>,
    r: Result<Predicate, FilterError>,
)
    requires
        creation(attribute, operator, parameter, r),
    ensures
        r is Ok ==> legal(attribute, operator),
        !legal(attribute, operator) ==> r == Err::<Predicate, FilterError>(
            legality_error(attribute, operator),
        ),
{
}

/// `name == text` always gives a predicate, and the predicate accepts
/// exactly the entries whose path is that text.
pub proof fn law_name_equality(text: Seq<char>, r: Result<Predicate, FilterError>, entry: Entry)
    requires
        creation(Attribute::Name, CompOp::Equal, text, r),
    ensures
        r matches Ok(predicate) && (predicate.matches(&entry) <==> (entry.path matches Some(path)
            && path@ == text)),
{
}

} // verus!
