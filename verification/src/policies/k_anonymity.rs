//! K-anonymity on aggregate counts.
use vstd::prelude::*;

use crate::policies::context::{AccessReason, PolicyContext};
use crate::row::{sql_opt_u64, sql_u64_of, SqlValue};

verus! {

/// The smallest group an aggregate may describe.
pub const MIN_K: u64 = 10;

/// K-anonymity policy.
#[derive(Clone)]
pub struct KAnonymityPolicy {
    count: u64,
}

impl View for KAnonymityPolicy {
    type V = u64;

    closed spec fn view(&self) -> u64 {
        self.count
    }
}

impl KAnonymityPolicy {
    pub fn simple_name(&self) -> (r: String)
        ensures
            r@ == "KAnonymityPolicy"@,
    {
        "KAnonymityPolicy".to_string()
    }

    /// An aggregate over at least `MIN_K` people may be released, to anyone.
    pub fn simple_check(&self, _context: &PolicyContext, _reason: &AccessReason) -> (r: bool)
        ensures
            r == (self@ >= MIN_K),
    {
        self.count >= MIN_K
    }

    /// The joined aggregate is as small as the smaller group.
    pub fn simple_join_direct(&mut self, other: &mut Self)
        ensures
            final(self)@ == (if old(self)@ <= old(other)@ { old(self)@ } else { old(other)@ }),
            *final(other) == *old(other),
    {
        if other.count < self.count {
            self.count = other.count;
        }
    }

    /// The policy of an aggregate row: the group size is column 2.
    pub fn from_row(_table: &str, row: &Vec<SqlValue>) -> (r: Self)
        requires
            2 < row@.len(),
            sql_opt_u64(row@[2]@) matches Some(Some(_)),
        ensures
            Some(r@) == sql_opt_u64(row@[2]@)->0,
    {
        KAnonymityPolicy { count: sql_u64_of(&row[2]) }
    }

    /// Joining never widens access: a joined aggregate passes only if both
    /// groups are large enough.
    pub proof fn lemma_join_never_widens(a: Self, b: Self)
        ensures
            (if a@ <= b@ { a@ } else { b@ }) >= MIN_K ==> a@ >= MIN_K && b@ >= MIN_K,
    {
    }
}

} // verus!
