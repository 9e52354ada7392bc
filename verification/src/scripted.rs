//! An engine that answers from a script: each request takes the next reply,
//! and every request is written to a log.
use crate::database::Database;
use crate::engine::{EngineItem, NativeEngine};
use crate::error::Error;
use crate::item::Item;
use vstd::prelude::*;

verus! {

/// One reply of the script.
pub enum Reply<DB: Database> {
    /// The query starts and yields these items.
    Stream(Vec<Item<DB::QueryResult, DB::Row>>),
    /// Preparing succeeds with this metadata.
    Prepared(DB::Metadata),
    /// Describing succeeds with this description.
    Described(DB::Describe),
    /// The request fails.
    Failure(Error),
}

/// What was asked of the engine.
#[derive(Debug, Clone, Copy, PartialEq, Eq, Structural)]
pub enum RequestKind {
    Execute,
    Prepare,
    Describe,
}

/// One request, as the engine received it.
#[derive(Debug)]
pub struct Request {
    pub kind: RequestKind,
    pub sql: String,
    /// Whether arguments came with the request.
    pub bound: bool,
    /// Whether the statement was to be kept prepared.
    pub persistent: bool,
}

/// What establishing a scripted engine depends on.
pub struct ScriptedOptions {
    /// An engine that is not reachable cannot be established.
    pub reachable: bool,
}

/// An engine without a database behind it. It answers the requests it gets
/// from its script, in the order of the script, whatever their SQL text. A
/// request for which the script holds no reply, or a reply of another kind,
/// fails with `Error::WorkerCrashed`.
pub struct ScriptedEngine<DB: Database> {
    replies: Vec<Reply<DB>>,
    running: Vec<Item<DB::QueryResult, DB::Row>>,
    requests: Vec<Request>,
}

impl<DB: Database> ScriptedEngine<DB> {
    /// The replies that have not been given yet.
    pub closed spec fn script(&self) -> Seq<Reply<DB>> {
        self.replies@
    }

    /// The requests received so far.
    pub closed spec fn log(&self) -> Seq<Request> {
        self.requests@
    }

    /// Whether `after` is the log `before` with one more request of the
    /// given content.
    pub open spec fn logged(
        before: Seq<Request>,
        after: Seq<Request>,
        kind: RequestKind,
        sql: Seq<char>,
        bound: bool,
        persistent: bool,
    ) -> bool {
        &&& after.len() == before.len() + 1
        &&& after.drop_last() == before
        &&& after.last().kind == kind
        &&& after.last().sql@ == sql
        &&& after.last().bound == bound
        &&& after.last().persistent == persistent
    }

    /// The script once its next reply has been given.
    pub open spec fn script_after_reply(&self) -> Seq<Reply<DB>> {
        if self.script().len() > 0 {
            self.script().skip(1)
        } else {
            self.script()
        }
    }

    /// An engine with an empty script that has received nothing.
    pub fn new() -> (engine: Self)
        ensures
            engine.script() == Seq::<Reply<DB>>::empty(),
            engine.pending() == Seq::<EngineItem<Self>>::empty(),
            engine.log() == Seq::<Request>::empty(),
    {
        ScriptedEngine { replies: Vec::new(), running: Vec::new(), requests: Vec::new() }
    }

    /// Appends a reply to the script.
    pub fn reply(&mut self, reply: Reply<DB>)
        ensures
            final(self).script() == old(self).script().push(reply),
            final(self).pending() == old(self).pending(),
            final(self).log() == old(self).log(),
    {
        self.replies.push(reply);
    }

    /// The requests received so far, oldest first.
    pub fn requests(&self) -> (requests: &Vec<Request>)
        ensures
            requests@ == self.log(),
    {
        &self.requests
    }

    /// Writes a request to the log and takes the next reply off the script.
    fn receive(&mut self, kind: RequestKind, sql: &str, bound: bool, persistent: bool) -> (reply:
        Option<Reply<DB>>)
        ensures
            Self::logged(old(self).log(), final(self).log(), kind, sql@, bound, persistent),
            final(self).pending() == old(self).pending(),
            final(self).script() == old(self).script_after_reply(),
            match reply {
                Some(first) => old(self).script().len() > 0 && first == old(self).script()[0],
                None => old(self).script().len() == 0,
            },
    {
        let ghost before = self.requests@;
        self.requests.push(Request { kind, sql: sql.to_owned(), bound, persistent });
        assert(self.requests@.drop_last() =~= before);
        if self.replies.len() == 0 {
            None
        } else {
            Some(self.replies.remove(0))
        }
    }
}

impl<DB: Database> NativeEngine for ScriptedEngine<DB> {
    type Database = DB;

    type Options = ScriptedOptions;

    open spec fn answer(
        &self,
        sql: Seq<char>,
        arguments: Option<DB::Arguments>,
        persistent: bool,
    ) -> Result<Seq<EngineItem<Self>>, Error> {
        if self.script().len() == 0 {
            Err(Error::WorkerCrashed)
        } else {
            match self.script()[0] {
                Reply::Stream(items) => Ok(items@),
                Reply::Failure(error) => Err(error),
                _ => Err(Error::WorkerCrashed),
            }
        }
    }

    closed spec fn pending(&self) -> Seq<EngineItem<Self>> {
        self.running@
    }

    open spec fn prepared(&self, sql: Seq<char>) -> Result<DB::Metadata, Error> {
        if self.script().len() == 0 {
            Err(Error::WorkerCrashed)
        } else {
            match self.script()[0] {
                Reply::Prepared(metadata) => Ok(metadata),
                Reply::Failure(error) => Err(error),
                _ => Err(Error::WorkerCrashed),
            }
        }
    }

    open spec fn described(&self, sql: Seq<char>) -> Result<DB::Describe, Error> {
        if self.script().len() == 0 {
            Err(Error::WorkerCrashed)
        } else {
            match self.script()[0] {
                Reply::Described(description) => Ok(description),
                Reply::Failure(error) => Err(error),
                _ => Err(Error::WorkerCrashed),
            }
        }
    }

    /// An engine that is reachable is established with an empty script.
    fn establish(options: &ScriptedOptions) -> (engine: Result<Self, Error>)
        ensures
            options.reachable ==> engine is Ok,
            !options.reachable ==> engine == Err::<Self, Error>(Error::WorkerCrashed),
            engine matches Ok(fresh) ==> {
                &&& fresh.script() == Seq::<Reply<DB>>::empty()
                &&& fresh.pending() == Seq::<EngineItem<Self>>::empty()
                &&& fresh.log() == Seq::<Request>::empty()
            },
    {
        if options.reachable {
            Ok(ScriptedEngine::new())
        } else {
            Err(Error::WorkerCrashed)
        }
    }

    fn execute(&mut self, sql: &str, arguments: Option<DB::Arguments>, persistent: bool) -> (started:
        Result<(), Error>)
        ensures
            Self::logged(
                old(self).log(),
                final(self).log(),
                RequestKind::Execute,
                sql@,
                arguments is Some,
                persistent,
            ),
            final(self).script() == old(self).script_after_reply(),
    {
        match self.receive(RequestKind::Execute, sql, arguments.is_some(), persistent) {
            Some(Reply::Stream(items)) => {
                self.running = items;
                Ok(())
            },
            Some(Reply::Failure(error)) => Err(error),
            _ => Err(Error::WorkerCrashed),
        }
    }

    fn step(&mut self) -> (item: Option<EngineItem<Self>>)
        ensures
            final(self).script() == old(self).script(),
            final(self).log() == old(self).log(),
    {
        if self.running.len() == 0 {
            None
        } else {
            Some(self.running.remove(0))
        }
    }

    fn prepare(&mut self, sql: &str) -> (metadata: Result<DB::Metadata, Error>)
        ensures
            Self::logged(
                old(self).log(),
                final(self).log(),
                RequestKind::Prepare,
                sql@,
                false,
                false,
            ),
            final(self).script() == old(self).script_after_reply(),
            final(self).pending() == old(self).pending(),
    {
        match self.receive(RequestKind::Prepare, sql, false, false) {
            Some(Reply::Prepared(metadata)) => Ok(metadata),
            Some(Reply::Failure(error)) => Err(error),
            _ => Err(Error::WorkerCrashed),
        }
    }

    fn describe(&mut self, sql: &str) -> (description: Result<DB::Describe, Error>)
        ensures
            Self::logged(
                old(self).log(),
                final(self).log(),
                RequestKind::Describe,
                sql@,
                false,
                false,
            ),
            final(self).script() == old(self).script_after_reply(),
            final(self).pending() == old(self).pending(),
    {
        match self.receive(RequestKind::Describe, sql, false, false) {
            Some(Reply::Described(description)) => Ok(description),
            Some(Reply::Failure(error)) => Err(error),
            _ => Err(Error::WorkerCrashed),
        }
    }
}

} // verus!
