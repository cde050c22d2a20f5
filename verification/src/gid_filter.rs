//! The predicate on the group that owns an entry.

use crate::filter::{Attribute, CompOp, Entry, Filter, FilterError};
use vstd::prelude::*;

verus! {

/// Accepts the entries that a given group owns, or those it does not own.
pub struct GidFilter {
    gid: u32,
    comp_op: CompOp,
}

impl GidFilter {
    #[verifier::type_invariant]
    spec fn well_formed(self) -> bool {
        self.comp_op.is_identity()
    }

    pub closed spec fn gid(&self) -> u32 {
        self.gid
    }

    pub closed spec fn comp_op(&self) -> CompOp {
        self.comp_op
    }

    /// Builds the filter. Only `==` and `not=` compare an id.
    pub fn new(comp_op: CompOp, gid: u32) -> (r: Result<GidFilter, FilterError>)
        ensures
            match r {
                Ok(filter) => comp_op.is_identity() && filter.gid() == gid && filter.comp_op()
                    == comp_op,
                Err(e) => !comp_op.is_identity() && e == FilterError::UnsupportedOperatorError {
                    attribute: Attribute::Gid,
                    operator: comp_op,
                },
            },
    {
        if comp_op.identity() {
            Ok(GidFilter { gid, comp_op })
        } else {
            Err(
                FilterError::UnsupportedOperatorError {
                    attribute: Attribute::Gid,
                    operator: comp_op,
                },
            )
        }
    }
}

impl Filter for GidFilter {
    open spec fn matches(&self, entry: &Entry) -> bool {
        match entry.metadata {
            Some(metadata) => match self.comp_op() {
                CompOp::Equal => metadata.gid == self.gid(),
                CompOp::Unequal => metadata.gid != self.gid(),
                _ => false,
            },
            None => false,
        }
    }

    fn test(&self, entry: &Entry) -> (r: bool) {
        match &entry.metadata {
            Some(metadata) => match self.comp_op {
                CompOp::Equal => self.gid == metadata.gid,
                CompOp::Unequal => self.gid != metadata.gid,
                _ => false,
            },
            None => false,
        }
    }
}

} // verus!
