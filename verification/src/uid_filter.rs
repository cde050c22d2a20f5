//! The predicate on the user that owns an entry.

use crate::filter::{Attribute, CompOp, Entry, Filter, FilterError};
use vstd::prelude::*;

verus! {

/// Accepts the entries that a given user owns, or those it does not own.
pub struct UidFilter {
    uid: u32,
    comp_op: CompOp,
}

impl UidFilter {
    #[verifier::type_invariant]
    spec fn well_formed(self) -> bool {
        self.comp_op.is_identity()
    }

    pub closed spec fn uid(&self) -> u32 {
        self.uid
    }

    pub closed spec fn comp_op(&self) -> CompOp {
        self.comp_op
    }

    /// Builds the filter. Only `==` and `not=` compare an id.
    pub fn new(comp_op: CompOp, uid: u32) -> (r: Result<UidFilter, FilterError>)
        ensures
            match r {
                Ok(filter) => comp_op.is_identity() && filter.uid() == uid && filter.comp_op()
                    == comp_op,
                Err(e) => !comp_op.is_identity() && e == FilterError::UnsupportedOperatorError {
                    attribute: Attribute::Uid,
                    operator: comp_op,
                },
            },
    {
        if comp_op.identity() {
            Ok(UidFilter { uid, comp_op })
        } else {
            Err(
                FilterError::UnsupportedOperatorError {
                    attribute: Attribute::Uid,
                    operator: comp_op,
                },
            )
        }
    }
}

impl Filter for UidFilter {
    open spec fn matches(&self, entry: &Entry) -> bool {
        match entry.metadata {
            Some(metadata) => match self.comp_op() {
                CompOp::Equal => metadata.uid == self.uid(),
                CompOp::Unequal => metadata.uid != self.uid(),
                _ => false,
            },
            None => false,
        }
    }

    fn test(&self, entry: &Entry) -> (r: bool) {
        match &entry.metadata {
            Some(metadata) => match self.comp_op {
                CompOp::Equal => self.uid == metadata.uid,
                CompOp::Unequal => self.uid != metadata.uid,
                _ => false,
            },
            None => false,
        }
    }
}

} // verus!
