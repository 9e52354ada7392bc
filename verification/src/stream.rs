//! Lazy, single-pass streams, pulled one item at a time, and the adapters
//! that filter and bound them.
use crate::error::Error;
use crate::item::{into_row, into_summary, item_is_row, Item};
use crate::model::{bounded, rows_of, summaries_of};
use either::Either;
use vstd::prelude::*;

verus! {

/// A stream that hands out its items in order, each once. Pulling may block
/// while the source works; a stream that has ended stays ended.
pub trait SyncStream: Sized {
    type Item;

    /// The items still to come, in the order in which `next` hands them out.
    spec fn remaining(&self) -> Seq<Self::Item>;

    /// Hands out the next item, or `None` once the stream has ended.
    fn next(&mut self) -> (item: Option<Self::Item>)
        ensures
            match item {
                Some(first) => {
                    &&& old(self).remaining().len() > 0
                    &&& first == old(self).remaining()[0]
                    &&& final(self).remaining() == old(self).remaining().skip(1)
                },
                None => {
                    &&& old(self).remaining().len() == 0
                    &&& final(self).remaining().len() == 0
                },
            },
    ;
}

/// The stream of one item.
pub struct Once<T> {
    item: Option<T>,
}

impl<T> Once<T> {
    pub fn new(item: T) -> (stream: Self)
        ensures
            stream.remaining() == seq![item],
    {
        Once { item: Some(item) }
    }
}

impl<T> SyncStream for Once<T> {
    type Item = T;

    closed spec fn remaining(&self) -> Seq<T> {
        match self.item {
            Some(item) => seq![item],
            None => Seq::empty(),
        }
    }

    fn next(&mut self) -> (item: Option<T>) {
        let item = self.item.take();
        item
    }
}

/// Either of two streams of the same items is a stream.
impl<L: SyncStream, R: SyncStream<Item = L::Item>> SyncStream for Either<L, R> {
    type Item = L::Item;

    open spec fn remaining(&self) -> Seq<L::Item> {
        match self {
            Either::Left(left) => left.remaining(),
            Either::Right(right) => right.remaining(),
        }
    }

    fn next(&mut self) -> (item: Option<L::Item>) {
        match self {
            Either::Left(left) => left.next(),
            Either::Right(right) => right.next(),
        }
    }
}

/// The summaries of a stream of items: rows are dropped, failures stay in
/// place.
pub struct Summaries<S> {
    inner: S,
}

impl<Q, R, S: SyncStream<Item = Item<Q, R>>> Summaries<S> {
    pub fn new(inner: S) -> (stream: Self)
        ensures
            stream.remaining() == summaries_of(inner.remaining()),
    {
        Summaries { inner }
    }
}

impl<Q, R, S: SyncStream<Item = Item<Q, R>>> SyncStream for Summaries<S> {
    type Item = Result<Q, Error>;

    closed spec fn remaining(&self) -> Seq<Result<Q, Error>> {
        summaries_of(self.inner.remaining())
    }

    fn next(&mut self) -> (item: Option<Result<Q, Error>>) {
        loop
            invariant
                summaries_of(self.inner.remaining()) == summaries_of(old(self).inner.remaining()),
            decreases self.inner.remaining().len(),
        {
            match self.inner.next() {
                None => {
                    return None;
                },
                Some(pulled) => {
                    if let Some(kept) = into_summary(pulled) {
                        return Some(kept);
                    }
                },
            }
        }
    }
}

/// The rows of a stream of items: summaries are dropped, failures stay in
/// place.
pub struct Rows<S> {
    inner: S,
}

impl<Q, R, S: SyncStream<Item = Item<Q, R>>> Rows<S> {
    pub fn new(inner: S) -> (stream: Self)
        ensures
            stream.remaining() == rows_of(inner.remaining()),
    {
        Rows { inner }
    }
}

impl<Q, R, S: SyncStream<Item = Item<Q, R>>> SyncStream for Rows<S> {
    type Item = Result<R, Error>;

    closed spec fn remaining(&self) -> Seq<Result<R, Error>> {
        rows_of(self.inner.remaining())
    }

    fn next(&mut self) -> (item: Option<Result<R, Error>>) {
        loop
            invariant
                rows_of(self.inner.remaining()) == rows_of(old(self).inner.remaining()),
            decreases self.inner.remaining().len(),
        {
            match self.inner.next() {
                None => {
                    return None;
                },
                Some(pulled) => {
                    if let Some(kept) = into_row(pulled) {
                        return Some(kept);
                    }
                },
            }
        }
    }
}

/// A stream of items cut short by a row bound: it counts the rows that it
/// hands out and ends once the count has reached `limit`. Summaries and
/// failures pass without being counted.
pub struct Limited<S> {
    inner: S,
    limit: usize,
    count: usize,
}

impl<Q, R, S: SyncStream<Item = Item<Q, R>>> Limited<S> {
    pub fn new(inner: S, limit: usize) -> (stream: Self)
        ensures
            stream.remaining() == bounded(inner.remaining(), limit as nat),
    {
        Limited { inner, limit, count: 0 }
    }
}

impl<S> Limited<S> {
    /// How many rows the stream may still hand out.
    spec fn allowance(&self) -> nat {
        if self.count < self.limit {
            (self.limit - self.count) as nat
        } else {
            0
        }
    }
}

impl<Q, R, S: SyncStream<Item = Item<Q, R>>> SyncStream for Limited<S> {
    type Item = Item<Q, R>;

    closed spec fn remaining(&self) -> Seq<Item<Q, R>> {
        bounded(self.inner.remaining(), self.allowance())
    }

    /// Hands out the next item of the inner stream, unless the count of rows
    /// has reached the limit: then the inner stream is not pulled any more.
    fn next(&mut self) -> (item: Option<Item<Q, R>>) {
        if self.count >= self.limit {
            return None;
        }
        match self.inner.next() {
            None => None,
            Some(pulled) => {
                if item_is_row(&pulled) {
                    self.count = self.count + 1;
                }
                Some(pulled)
            },
        }
    }
}

} // verus!
