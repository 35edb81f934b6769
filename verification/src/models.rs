//! The typed records.

use vstd::prelude::*;

pub mod field_model;

verus! {

/// Where a page of results stands within the whole result set.
#[derive(Debug, Clone, Copy, PartialEq, Eq, Structural)]
pub struct Pagination {
    pub page: u64,
    pub size: u64,
    pub total: u64,
}

impl Default for Pagination {
    fn default() -> (zero: Pagination)
        ensures
            zero == (Pagination { page: 0, size: 0, total: 0 }),
    {
        Pagination { page: 0, size: 0, total: 0 }
    }
}

} // verus!
