//! The executor: every way to run a query, built on two primitives.
use crate::database::{Database, Statement, Summary};
use crate::error::Error;
use crate::item::Item;
use crate::model::{
    after, exactly_one, first_row, gathered, lemma_gathered_step, lemma_merge_all_push, merge_all,
    merged, rows_of, summaries_of,
};
use crate::query::Execute;
use crate::stream::{Rows, Summaries, SyncStream};
use vstd::prelude::*;

verus! {

/// The summaries of the database of an executor of type `X`.
pub type SummaryOf<X> = <<X as SyncExecutor>::Database as Database>::QueryResult;

/// The rows of the database of an executor of type `X`.
pub type RowOf<X> = <<X as SyncExecutor>::Database as Database>::Row;

/// The prepared statements of the database of an executor of type `X`.
pub type StatementOf<'q, X> = Statement<'q, <<X as SyncExecutor>::Database as Database>::Metadata>;

/// Something that runs queries against a database, blocking the caller until
/// each result is there.
///
/// A backend implements `fetch_many`, `fetch_optional`, `prepare_with` and
/// `describe`. The other operations are filters and folds over the stream of
/// `fetch_many` and go through the primitives alone.
///
/// An executor is used up by one call: a connection implements the trait for
/// its exclusive reference, so that a stream holds the connection until it is
/// dropped and no second query can start before.
pub trait SyncExecutor: Sized {
    type Database: Database;

    /// The stream that `fetch_many` returns.
    type Stream: SyncStream<Item = Item<SummaryOf<Self>, RowOf<Self>>>;

    /// What the backend, as it stands, produces for a query, given by its
    /// SQL text, the outcome of taking its arguments and its persistence
    /// hint: summaries and rows in the order of the native engine, with a
    /// failure in the place where it occurred.
    spec fn answer(
        self,
        sql: Seq<char>,
        arguments: Result<Option<<Self::Database as Database>::Arguments>, String>,
        hint: bool,
    ) -> Seq<Item<SummaryOf<Self>, RowOf<Self>>>;

    /// What the backend, as it stands, produces for `query`.
    open spec fn answer_to<'q, Q: Execute<'q, Self::Database>>(self, query: Q) -> Seq<
        Item<SummaryOf<Self>, RowOf<Self>>,
    > {
        self.answer(query.sql_spec(), query.arguments_spec(), query.persistent_spec())
    }

    /// What the backend, as it stands, makes of preparing `sql`.
    spec fn prepared<'q>(
        self,
        sql: &'q str,
        parameters: Seq<<Self::Database as Database>::TypeInfo>,
    ) -> Result<StatementOf<'q, Self>, Error>;

    /// What the backend, as it stands, makes of describing `sql`.
    spec fn described(self, sql: Seq<char>) -> Result<
        <Self::Database as Database>::Describe,
        Error,
    >;

    /// Execute the query and return the merged summary of its statements.
    /// The first failure fails the call, and what was merged until then is
    /// dropped.
    fn execute<'q, Q: Execute<'q, Self::Database>>(self, query: Q) -> (outcome: Result<
        SummaryOf<Self>,
        Error,
    >)
        ensures
            outcome == merged(summaries_of(self.answer_to(query))),
    {
        let ghost all = summaries_of(self.answer_to(query));
        let ghost mut done: Seq<SummaryOf<Self>> = Seq::empty();
        let mut res = <SummaryOf<Self> as Summary>::empty();
        let mut stream = self.execute_many(query);
        loop
            invariant
                all == summaries_of(self.answer_to(query)),
                after(done, gathered(stream.remaining())) == gathered(all),
                res == merge_all(done),
            decreases stream.remaining().len(),
        {
            let ghost rest = stream.remaining();
            match stream.next() {
                None => {
                    return Ok(res);
                },
                Some(item) => {
                    match item {
                        Ok(summary) => {
                            proof {
                                lemma_gathered_step(done, rest);
                                lemma_merge_all_push(done, summary);
                                done = done.push(summary);
                            }
                            res.merge(summary);
                        },
                        Err(error) => {
                            return Err(error);
                        },
                    }
                },
            }
        }
    }

    /// Execute the query and return the summary of each statement, as a
    /// stream. Rows are dropped; a failure keeps its place.
    fn execute_many<'q, Q: Execute<'q, Self::Database>>(self, query: Q) -> (stream: Summaries<
        Self::Stream,
    >)
        ensures
            stream.remaining() == summaries_of(self.answer_to(query)),
    {
        Summaries::new(self.fetch_many(query))
    }

    /// Execute the query and return its rows as a stream. Summaries are
    /// dropped; a failure keeps its place.
    fn fetch<'q, Q: Execute<'q, Self::Database>>(self, query: Q) -> (stream: Rows<Self::Stream>)
        ensures
            stream.remaining() == rows_of(self.answer_to(query)),
    {
        Rows::new(self.fetch_many(query))
    }

    /// Execute the query and return everything it produces, as a stream:
    /// the summary of each statement and each row, in the order of the
    /// native engine.
    fn fetch_many<'q, Q: Execute<'q, Self::Database>>(self, query: Q) -> (stream: Self::Stream)
        ensures
            stream.remaining() == self.answer_to(query),
    ;

    /// Execute the query and return all its rows. The first failure fails the
    /// call, and the rows collected until then are dropped.
    fn fetch_all<'q, Q: Execute<'q, Self::Database>>(self, query: Q) -> (outcome: Result<
        Vec<RowOf<Self>>,
        Error,
    >)
        ensures
            match gathered(rows_of(self.answer_to(query))) {
                Ok(rows) => outcome matches Ok(collected) && collected@ == rows,
                Err(error) => outcome == Err::<Vec<RowOf<Self>>, Error>(error),
            },
    {
        let ghost all = rows_of(self.answer_to(query));
        let mut rows: Vec<RowOf<Self>> = Vec::new();
        let mut stream = self.fetch(query);
        loop
            invariant
                all == rows_of(self.answer_to(query)),
                after(rows@, gathered(stream.remaining())) == gathered(all),
            decreases stream.remaining().len(),
        {
            let ghost rest = stream.remaining();
            match stream.next() {
                None => {
                    return Ok(rows);
                },
                Some(item) => {
                    match item {
                        Ok(row) => {
                            proof {
                                lemma_gathered_step(rows@, rest);
                            }
                            rows.push(row);
                        },
                        Err(error) => {
                            return Err(error);
                        },
                    }
                },
            }
        }
    }

    /// Execute the query and return exactly one row: the first. A query
    /// without rows fails with `RowNotFound`.
    fn fetch_one<'q, Q: Execute<'q, Self::Database>>(self, query: Q) -> (outcome: Result<
        RowOf<Self>,
        Error,
    >)
        ensures
            outcome == exactly_one(first_row(self.answer_to(query))),
    {
        self.fetch_optional(query)?.ok_or(Error::RowNotFound)
    }

    /// Execute the query and return at most one row: the first, or `None`
    /// where the query produces no row.
    fn fetch_optional<'q, Q: Execute<'q, Self::Database>>(self, query: Q) -> (outcome: Result<
        Option<RowOf<Self>>,
        Error,
    >)
        ensures
            outcome == first_row(self.answer_to(query)),
    ;

    /// Prepare the SQL text to inspect the types of its parameters and
    /// results, without hints on the parameters.
    fn prepare<'q>(self, query: &'q str) -> (outcome: Result<StatementOf<'q, Self>, Error>)
        ensures
            outcome == self.prepared(query, Seq::empty()),
    {
        let parameters: [<Self::Database as Database>::TypeInfo; 0] = [];
        assert(parameters@ =~= Seq::empty());
        self.prepare_with(query, &parameters)
    }

    /// Prepare the SQL text, with the types of its parameters as far as the
    /// caller knows them.
    fn prepare_with<'q>(
        self,
        sql: &'q str,
        parameters: &[<Self::Database as Database>::TypeInfo],
    ) -> (outcome: Result<StatementOf<'q, Self>, Error>)
        ensures
            outcome == self.prepared(sql, parameters@),
    ;

    /// Describe the parameters and results of the SQL text without running
    /// it.
    fn describe(self, sql: &str) -> (outcome: Result<
        <Self::Database as Database>::Describe,
        Error,
    >)
        ensures
            outcome == self.described(sql@),
    ;
}

} // verus!
