//! What a database backend brings: its summary, row, argument and metadata
//! types.
use std::borrow::Cow;
use vstd::prelude::*;

verus! {

/// The effect of one completed statement, as an accumulator: the summaries of
/// the statements of a script fold into one.
pub trait Summary: Sized {
    /// The summary of no statement at all.
    spec fn empty_spec() -> Self;

    /// The summary of what `self` describes followed by what `other` describes.
    spec fn merge_spec(self, other: Self) -> Self;

    /// Merging is associative: how a script is cut into parts does not matter.
    proof fn merge_is_associative(a: Self, b: Self, c: Self)
        ensures
            a.merge_spec(b).merge_spec(c) == a.merge_spec(b.merge_spec(c)),
    ;

    fn empty() -> (summary: Self)
        ensures
            summary == Self::empty_spec(),
    ;

    fn merge(&mut self, other: Self)
        ensures
            *final(self) == old(self).merge_spec(other),
    ;
}

/// The types of one database backend.
pub trait Database: Sized {
    /// The summary of a completed statement.
    type QueryResult: Summary;

    /// One row of a result set, owned by whoever holds it.
    type Row;

    /// The bound arguments of a query.
    type Arguments;

    /// The type of a parameter or of a column.
    type TypeInfo;

    /// What preparing a statement tells about its parameters and columns.
    type Metadata;

    /// What describing a statement tells, without executing it.
    type Describe;
}

/// A prepared statement: the SQL text it was made from and the metadata that
/// preparing it gave.
pub struct Statement<'q, M> {
    pub sql: Cow<'q, str>,
    pub metadata: M,
}

impl<'q, M> Statement<'q, M> {
    /// The SQL text of the statement.
    pub fn sql(&self) -> (sql: &str)
        ensures
            sql@ == self.sql@,
    {
        match &self.sql {
            Cow::Borrowed(text) => text,
            Cow::Owned(text) => text.as_str(),
        }
    }

    /// The same statement, carrying `sql` as its text.
    pub fn with_sql<'s>(self, sql: &'s str) -> (tagged: Statement<'s, M>)
        ensures
            tagged.sql == Cow::<'s, str>::Borrowed(sql),
            tagged.sql@ == sql@,
            tagged.metadata == self.metadata,
    {
        Statement { sql: Cow::Borrowed(sql), metadata: self.metadata }
    }
}

} // verus!
