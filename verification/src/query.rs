//! Queries: SQL text, the arguments bound to it, and a persistence hint.
use crate::database::Database;
use vstd::prelude::*;

verus! {

/// What can be executed: it names its SQL text, gives up its bound arguments
/// once, and says whether its prepared form is worth keeping.
pub trait Execute<'q, DB: Database>: Sized {
    /// The SQL text.
    spec fn sql_spec(&self) -> Seq<char>;

    /// What taking the arguments gives: the arguments, if any are bound, or
    /// the reason why binding them failed.
    spec fn arguments_spec(&self) -> Result<Option<DB::Arguments>, String>;

    /// The persistence hint.
    spec fn persistent_spec(&self) -> bool;

    fn sql(&self) -> (sql: &'q str)
        ensures
            sql@ == self.sql_spec(),
    ;

    /// Takes the bound arguments out of the query. Nothing is left to take
    /// afterwards.
    fn take_arguments(&mut self) -> (taken: Result<Option<DB::Arguments>, String>)
        ensures
            taken == old(self).arguments_spec(),
            final(self).arguments_spec() == Ok::<Option<DB::Arguments>, String>(None),
            final(self).sql_spec() == old(self).sql_spec(),
            final(self).persistent_spec() == old(self).persistent_spec(),
    ;

    fn persistent(&self) -> (hint: bool)
        ensures
            hint == self.persistent_spec(),
    ;
}

/// Plain SQL text is a query without arguments.
impl<'q, DB: Database> Execute<'q, DB> for &'q str {
    open spec fn sql_spec(&self) -> Seq<char> {
        self@
    }

    open spec fn arguments_spec(&self) -> Result<Option<DB::Arguments>, String> {
        Ok(None)
    }

    open spec fn persistent_spec(&self) -> bool {
        true
    }

    fn sql(&self) -> (sql: &'q str) {
        *self
    }

    fn take_arguments(&mut self) -> (taken: Result<Option<DB::Arguments>, String>) {
        Ok(None)
    }

    fn persistent(&self) -> (hint: bool) {
        true
    }
}

/// A query with bound arguments.
pub struct Query<'q, DB: Database> {
    sql: &'q str,
    arguments: Option<Result<DB::Arguments, String>>,
    persistent: bool,
}

impl<'q, DB: Database> Query<'q, DB> {
    /// Sets the persistence hint.
    pub fn persistent(self, value: bool) -> (query: Self)
        ensures
            query.sql_spec() == self.sql_spec(),
            query.arguments_spec() == self.arguments_spec(),
            query.persistent_spec() == value,
    {
        Query { sql: self.sql, arguments: self.arguments, persistent: value }
    }
}

impl<'q, DB: Database> Execute<'q, DB> for Query<'q, DB> {
    closed spec fn sql_spec(&self) -> Seq<char> {
        self.sql@
    }

    closed spec fn arguments_spec(&self) -> Result<Option<DB::Arguments>, String> {
        match self.arguments {
            Some(Ok(arguments)) => Ok(Some(arguments)),
            Some(Err(reason)) => Err(reason),
            None => Ok(None),
        }
    }

    closed spec fn persistent_spec(&self) -> bool {
        self.persistent
    }

    fn sql(&self) -> (sql: &'q str) {
        self.sql
    }

    fn take_arguments(&mut self) -> (taken: Result<Option<DB::Arguments>, String>) {
        match self.arguments.take() {
            Some(Ok(arguments)) => Ok(Some(arguments)),
            Some(Err(reason)) => Err(reason),
            None => Ok(None),
        }
    }

    fn persistent(&self) -> (hint: bool) {
        self.persistent
    }
}

/// A query with the given arguments bound, hinted as persistent.
pub fn query_with<'q, DB: Database>(sql: &'q str, arguments: DB::Arguments) -> (query: Query<'q, DB>)
    ensures
        query.sql_spec() == sql@,
        query.arguments_spec() == Ok::<Option<DB::Arguments>, String>(Some(arguments)),
        query.persistent_spec(),
{
    Query { sql, arguments: Some(Ok(arguments)), persistent: true }
}

/// A query with the outcome of binding its arguments, hinted as persistent.
/// A failed binding surfaces when the query is executed.
pub fn query_with_result<'q, DB: Database>(
    sql: &'q str,
    arguments: Result<DB::Arguments, String>,
) -> (query: Query<'q, DB>)
    ensures
        query.sql_spec() == sql@,
        query.arguments_spec() == match arguments {
            Ok(bound) => Ok::<Option<DB::Arguments>, String>(Some(bound)),
            Err(reason) => Err::<Option<DB::Arguments>, String>(reason),
        },
        query.persistent_spec(),
{
    Query { sql, arguments: Some(arguments), persistent: true }
}

} // verus!
