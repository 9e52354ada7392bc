//! The failures that query execution surfaces to its caller.
use vstd::prelude::*;

verus! {

/// Why an execution call, or one position of a stream, failed.
#[derive(Debug, PartialEq, Eq)]
pub enum Error {
    /// Binding the arguments of a query failed; the engine was not asked.
    Encode(String),
    /// The native engine failed; the text is its message.
    Database(String),
    /// An operation that needs a row found none.
    RowNotFound,
    /// The native engine is gone and takes no request.
    WorkerCrashed,
}

impl Clone for Error {
    fn clone(&self) -> (copy: Self)
        ensures
            copy == *self,
    {
        match self {
            Error::Encode(reason) => Error::Encode(reason.clone()),
            Error::Database(message) => Error::Database(message.clone()),
            Error::RowNotFound => Error::RowNotFound,
            Error::WorkerCrashed => Error::WorkerCrashed,
        }
    }
}

} // verus!
