//! The statement summary of SQLite.
use crate::database::Summary;
use vstd::prelude::*;

verus! {

/// What one statement did to the database: how many rows it changed and the
/// row id of its last insert.
#[derive(Debug, Clone, Copy, PartialEq, Eq, Structural)]
pub struct SqliteQueryResult {
    pub changes: u64,
    pub last_insert_rowid: i64,
}

/// The sum of two row counts, held at the largest count that fits.
pub open spec fn total_changes(a: u64, b: u64) -> u64 {
    if a + b > u64::MAX {
        u64::MAX
    } else {
        (a + b) as u64
    }
}

impl SqliteQueryResult {
    /// The number of rows that were changed.
    pub fn rows_affected(&self) -> (changes: u64)
        ensures
            changes == self.changes,
    {
        self.changes
    }

    /// The row id of the last insert.
    pub fn last_insert_rowid(&self) -> (rowid: i64)
        ensures
            rowid == self.last_insert_rowid,
    {
        self.last_insert_rowid
    }
}

impl Summary for SqliteQueryResult {
    /// No row changed, no row inserted.
    open spec fn empty_spec() -> Self {
        SqliteQueryResult { changes: 0, last_insert_rowid: 0 }
    }

    /// The changes add up, without passing the largest count; the row id is
    /// that of the later statement.
    open spec fn merge_spec(self, other: Self) -> Self {
        SqliteQueryResult {
            changes: total_changes(self.changes, other.changes),
            last_insert_rowid: other.last_insert_rowid,
        }
    }

    proof fn merge_is_associative(a: Self, b: Self, c: Self) {
    }

    fn empty() -> (summary: Self) {
        SqliteQueryResult { changes: 0, last_insert_rowid: 0 }
    }

    fn merge(&mut self, other: Self) {
        self.changes = self.changes.saturating_add(other.changes);
        self.last_insert_rowid = other.last_insert_rowid;
    }
}

} // verus!
