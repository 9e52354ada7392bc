//! The native query engine, as far as the execution layer consumes it.
use crate::database::Database;
use crate::error::Error;
use crate::item::Item;
use crate::stream::SyncStream;
use vstd::prelude::*;

verus! {

/// The items that an engine of type `E` produces.
pub type EngineItem<E> = Item<
    <<E as NativeEngine>::Database as Database>::QueryResult,
    <<E as NativeEngine>::Database as Database>::Row,
>;

/// A single-connection, single-threaded query engine.
///
/// The engine runs one statement at a time: `execute` starts a query and
/// `step` pulls the items of its result, one per call, in the order in which
/// the engine produces them. Starting a query abandons what was left of the
/// one before.
///
/// The spec functions give names to what the engine does in a given state;
/// the contracts of the methods tie their results to these names and promise
/// nothing else. Each result stream is finite, and a stream that has ended
/// yields nothing more.
pub trait NativeEngine: Sized {
    type Database: Database;

    /// What a connection is established from.
    type Options;

    /// What the engine, in this state, makes of a query: the items of its
    /// result in engine order, or the failure to start it.
    spec fn answer(
        &self,
        sql: Seq<char>,
        arguments: Option<<Self::Database as Database>::Arguments>,
        persistent: bool,
    ) -> Result<Seq<EngineItem<Self>>, Error>;

    /// The items that the running query has still to yield.
    spec fn pending(&self) -> Seq<EngineItem<Self>>;

    /// What the engine, in this state, makes of preparing `sql`.
    spec fn prepared(&self, sql: Seq<char>) -> Result<
        <Self::Database as Database>::Metadata,
        Error,
    >;

    /// What the engine, in this state, makes of describing `sql`.
    spec fn described(&self, sql: Seq<char>) -> Result<
        <Self::Database as Database>::Describe,
        Error,
    >;

    /// Opens a connection.
    fn establish(options: &Self::Options) -> Result<Self, Error>;

    /// Starts `sql` with the given arguments; a persistent statement is kept
    /// prepared for later use.
    fn execute(
        &mut self,
        sql: &str,
        arguments: Option<<Self::Database as Database>::Arguments>,
        persistent: bool,
    ) -> (started: Result<(), Error>)
        ensures
            match old(self).answer(sql@, arguments, persistent) {
                Ok(items) => started is Ok && final(self).pending() == items,
                Err(error) => started == Err::<(), Error>(error),
            },
    ;

    /// Pulls the next item of the running query. May block while the engine
    /// works.
    fn step(&mut self) -> (item: Option<EngineItem<Self>>)
        ensures
            match item {
                Some(first) => {
                    &&& old(self).pending().len() > 0
                    &&& first == old(self).pending()[0]
                    &&& final(self).pending() == old(self).pending().skip(1)
                },
                None => {
                    &&& old(self).pending().len() == 0
                    &&& final(self).pending().len() == 0
                },
            },
    ;

    /// Prepares `sql` without running it and returns the metadata of the
    /// statement.
    fn prepare(&mut self, sql: &str) -> (metadata: Result<
        <Self::Database as Database>::Metadata,
        Error,
    >)
        ensures
            metadata == old(self).prepared(sql@),
    ;

    /// Describes the parameters and columns of `sql` without running it.
    fn describe(&mut self, sql: &str) -> (description: Result<
        <Self::Database as Database>::Describe,
        Error,
    >)
        ensures
            description == old(self).described(sql@),
    ;
}

/// The result of the query that an engine is running, as a stream. It holds
/// the engine for as long as it lives.
pub struct EngineCursor<'c, E: NativeEngine> {
    engine: &'c mut E,
}

impl<'c, E: NativeEngine> EngineCursor<'c, E> {
    pub fn new(engine: &'c mut E) -> (cursor: Self)
        ensures
            cursor.remaining() == old(engine).pending(),
    {
        EngineCursor { engine }
    }
}

impl<'c, E: NativeEngine> SyncStream for EngineCursor<'c, E> {
    type Item = EngineItem<E>;

    closed spec fn remaining(&self) -> Seq<EngineItem<E>> {
        self.engine.pending()
    }

    fn next(&mut self) -> (item: Option<EngineItem<E>>) {
        self.engine.step()
    }
}

} // verus!
