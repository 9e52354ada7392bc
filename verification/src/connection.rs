//! The blocking connection: the bridge from the native engine to the stream
//! of items that the executor works on.
use crate::database::{Database, Statement};
use crate::engine::{EngineCursor, EngineItem, NativeEngine};
use crate::error::Error;
use crate::executor::SyncExecutor;
use crate::model::{bounded, first_row, lemma_first_row_bounded};
use crate::query::Execute;
use crate::stream::{Limited, Once, SyncStream};
use either::Either;
use std::borrow::Cow;
use vstd::prelude::*;

verus! {

/// A connection to a native engine that serves one query at a time on the
/// caller's thread.
///
/// Every execution call takes the connection by exclusive reference, and a
/// stream keeps that reference until it is dropped.
pub struct SyncSqliteConnection<E: NativeEngine> {
    conn: E,
}

/// What the engine yields for a started query: all of it, or cut short by a
/// row bound.
pub type ExecuteStream<'a, E> = Either<Limited<EngineCursor<'a, E>>, EngineCursor<'a, E>>;

/// What `fetch_many` yields: the single failure of a query that could not be
/// started, or what the engine yields.
pub type FetchManyStream<'a, E> = Either<Once<EngineItem<E>>, ExecuteStream<'a, E>>;

/// The effective persistence of a query: the hint counts only where
/// arguments are bound.
pub open spec fn effective_persistence<A>(hint: bool, arguments: Option<A>) -> bool {
    hint && arguments is Some
}

/// The stream that a query gives on an engine in state `engine`. A failed
/// binding is the only item of its stream and the engine is not asked; a
/// query that the engine cannot start gives that failure as its only item.
pub open spec fn bridged<E: NativeEngine>(
    engine: E,
    sql: Seq<char>,
    arguments: Result<Option<<E::Database as Database>::Arguments>, String>,
    hint: bool,
) -> Seq<EngineItem<E>> {
    match arguments {
        Err(reason) => seq![Err(Error::Encode(reason))],
        Ok(bound) => match engine.answer(sql, bound, effective_persistence(hint, bound)) {
            Ok(items) => items,
            Err(error) => seq![Err(error)],
        },
    }
}

impl<E: NativeEngine> View for SyncSqliteConnection<E> {
    type V = E;

    /// The state of the engine behind the connection.
    closed spec fn view(&self) -> E {
        self.conn
    }
}

impl<E: NativeEngine> SyncSqliteConnection<E> {
    /// Opens a connection with the engine's own establishment routine. The
    /// connection is made of what the routine returns, and its failure is
    /// handed on as it is.
    pub fn establish(options: &E::Options) -> (connection: Result<Self, Error>)
        ensures
            exists|outcome: Result<E, Error>|
                call_ensures(E::establish, (options,), outcome) && match outcome {
                    Ok(engine) => connection matches Ok(opened) && opened@ == engine,
                    Err(error) => connection == Err::<Self, Error>(error),
                },
    {
        let outcome = E::establish(options);
        Self::established(outcome)
    }

    /// Makes the connection of what the establishment routine returned.
    pub fn established(outcome: Result<E, Error>) -> (connection: Result<Self, Error>)
        ensures
            match outcome {
                Ok(engine) => connection matches Ok(opened) && opened@ == engine,
                Err(error) => connection == Err::<Self, Error>(error),
            },
    {
        match outcome {
            Ok(conn) => Ok(SyncSqliteConnection { conn }),
            Err(error) => Err(error),
        }
    }

    /// The engine behind the connection.
    pub fn engine(&self) -> (engine: &E)
        ensures
            *engine == self@,
    {
        &self.conn
    }

    /// The engine behind the connection, to work on it directly.
    pub fn engine_mut(&mut self) -> (engine: &mut E)
        ensures
            *engine == old(self)@,
            final(self)@ == *final(engine),
    {
        &mut self.conn
    }

    /// Starts the query on the engine and returns its result as a stream.
    /// With a limit the stream ends once it has handed out that many rows,
    /// and the engine is not pulled any further.
    fn execute<'a>(
        &'a mut self,
        query: &str,
        args: Option<<E::Database as Database>::Arguments>,
        persistent: bool,
        limit: Option<usize>,
    ) -> (outcome: Result<ExecuteStream<'a, E>, Error>)
        ensures
            match old(self)@.answer(query@, args, persistent) {
                Ok(items) => {
                    &&& outcome matches Ok(stream)
                    &&& stream.remaining() == match limit {
                        Some(bound) => bounded(items, bound as nat),
                        None => items,
                    }
                },
                Err(error) => outcome == Err::<ExecuteStream<'a, E>, Error>(error),
            },
    {
        match self.conn.execute(query, args, persistent) {
            Ok(()) => {},
            Err(error) => {
                return Err(error);
            },
        }
        let iter = EngineCursor::new(&mut self.conn);
        if let Some(limit) = limit {
            Ok(Either::Left(Limited::new(iter, limit)))
        } else {
            Ok(Either::Right(iter))
        }
    }

    /// Prepares the SQL text on the engine. The statement owns a copy of the
    /// text.
    fn prepare(&mut self, query: &str) -> (outcome: Result<
        Statement<'static, <E::Database as Database>::Metadata>,
        Error,
    >)
        ensures
            match old(self)@.prepared(query@) {
                Ok(metadata) => {
                    &&& outcome matches Ok(statement)
                    &&& statement.sql@ == query@
                    &&& statement.metadata == metadata
                },
                Err(error) => outcome == Err::<
                    Statement<'static, <E::Database as Database>::Metadata>,
                    Error,
                >(error),
            },
    {
        match self.conn.prepare(query) {
            Ok(metadata) => Ok(Statement { sql: Cow::Owned(query.to_owned()), metadata }),
            Err(error) => Err(error),
        }
    }

    /// Describes the SQL text on the engine.
    fn describe(&mut self, query: &str) -> (outcome: Result<
        <E::Database as Database>::Describe,
        Error,
    >)
        ensures
            outcome == old(self)@.described(query@),
    {
        self.conn.describe(query)
    }
}

impl<'c, E: NativeEngine> SyncExecutor for &'c mut SyncSqliteConnection<E> {
    type Database = E::Database;

    type Stream = FetchManyStream<'c, E>;

    open spec fn answer(
        self,
        sql: Seq<char>,
        arguments: Result<Option<<E::Database as Database>::Arguments>, String>,
        hint: bool,
    ) -> Seq<EngineItem<E>> {
        bridged(self@, sql, arguments, hint)
    }

    open spec fn prepared<'q>(
        self,
        sql: &'q str,
        parameters: Seq<<E::Database as Database>::TypeInfo>,
    ) -> Result<Statement<'q, <E::Database as Database>::Metadata>, Error> {
        match self@.prepared(sql@) {
            Ok(metadata) => Ok(Statement { sql: Cow::Borrowed(sql), metadata }),
            Err(error) => Err(error),
        }
    }

    open spec fn described(self, sql: Seq<char>) -> Result<
        <E::Database as Database>::Describe,
        Error,
    > {
        self@.described(sql)
    }

    /// A query whose arguments could not be bound is answered without the
    /// engine: the connection stays as it is.
    fn fetch_many<'q, Q: Execute<'q, E::Database>>(self, query: Q) -> (stream: FetchManyStream<
        'c,
        E,
    >)
        ensures
            query.arguments_spec() is Err ==> *final(self) == *old(self),
    {
        let mut source = query;
        let sql = source.sql();
        let arguments = match source.take_arguments() {
            Ok(arguments) => arguments,
            Err(reason) => {
                return Either::Left(Once::new(Err(Error::Encode(reason))));
            },
        };
        let persistent = source.persistent() && arguments.is_some();

        match self.execute(sql, arguments, persistent, None) {
            Ok(stream) => Either::Right(stream),
            Err(error) => Either::Left(Once::new(Err(error))),
        }
    }

    /// Asks the engine for the query with a row bound of one and looks for
    /// the row. A query whose arguments could not be bound fails without the
    /// engine: the connection stays as it is.
    fn fetch_optional<'q, Q: Execute<'q, E::Database>>(self, query: Q) -> (outcome: Result<
        Option<<E::Database as Database>::Row>,
        Error,
    >)
        ensures
            query.arguments_spec() is Err ==> *final(self) == *old(self),
    {
        let mut source = query;
        let sql = source.sql();
        let arguments = match source.take_arguments() {
            Ok(arguments) => arguments,
            Err(reason) => {
                return Err(Error::Encode(reason));
            },
        };
        let persistent = source.persistent() && arguments.is_some();

        let mut stream = match self.execute(sql, arguments, persistent, Some(1)) {
            Ok(stream) => stream,
            Err(error) => {
                return Err(error);
            },
        };
        proof {
            lemma_first_row_bounded(old(self).answer_to(query), 1);
        }
        loop
            invariant
                query.arguments_spec() is Ok,
                first_row(stream.remaining()) == first_row(old(self).answer_to(query)),
            decreases stream.remaining().len(),
        {
            match stream.next() {
                None => {
                    return Ok(None);
                },
                Some(res) => {
                    match res {
                        Ok(step) => {
                            if let Either::Right(row) = step {
                                return Ok(Some(row));
                            }
                        },
                        Err(error) => {
                            return Err(error);
                        },
                    }
                },
            }
        }
    }

    fn prepare_with<'q>(
        self,
        sql: &'q str,
        _parameters: &[<E::Database as Database>::TypeInfo],
    ) -> (outcome: Result<Statement<'q, <E::Database as Database>::Metadata>, Error>) {
        match self.prepare(sql) {
            Ok(statement) => Ok(statement.with_sql(sql)),
            Err(error) => Err(error),
        }
    }

    fn describe(self, sql: &str) -> (outcome: Result<
        <E::Database as Database>::Describe,
        Error,
    >) {
        self.describe(sql)
    }
}

} // verus!
